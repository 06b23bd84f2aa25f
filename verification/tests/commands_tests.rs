use assistant_bot::commands::{Command, MenuAction};

fn every_menu_action() -> Vec<MenuAction> {
    vec![
        MenuAction::Classes,
        MenuAction::AddClass,
        MenuAction::DeductClass,
        MenuAction::ClassSettings,
        MenuAction::ListClasses,
        MenuAction::ClassesDeductionHistory,
        MenuAction::UpdateQuantity,
        MenuAction::MainMenu,
        MenuAction::DailyPracticeLog,
        MenuAction::AddDailyPracticeEntry,
        MenuAction::DailyPracticeLogHistory,
    ]
}

#[test]
fn labels_are_the_literal_texts() {
    assert_eq!(MenuAction::Classes.label(), "Занятия");
    assert_eq!(MenuAction::AddClass.label(), "Добавить занятие");
    assert_eq!(MenuAction::DeductClass.label(), "Списать занятие");
    assert_eq!(MenuAction::ClassSettings.label(), "Настройка занятий");
    assert_eq!(MenuAction::ListClasses.label(), "Список занятий");
    assert_eq!(MenuAction::ClassesDeductionHistory.label(), "История списаний");
    assert_eq!(MenuAction::UpdateQuantity.label(), "Обновить количество");
    assert_eq!(MenuAction::MainMenu.label(), "Главное меню");
    assert_eq!(MenuAction::DailyPracticeLog.label(), "Дневник практик");
    assert_eq!(MenuAction::AddDailyPracticeEntry.label(), "Добавить запись");
    assert_eq!(MenuAction::DailyPracticeLogHistory.label(), "История практик");
}

#[test]
fn every_label_is_read_back_as_its_action() {
    for action in every_menu_action() {
        assert_eq!(MenuAction::parse(action.label()), Some(action));
    }
}

#[test]
fn labels_match_exactly_or_not_at_all() {
    assert_eq!(MenuAction::parse("занятия"), None);
    assert_eq!(MenuAction::parse("Занятия "), None);
    assert_eq!(MenuAction::parse(""), None);
    assert_eq!(MenuAction::parse("Йога"), None);
    assert_eq!(MenuAction::parse("/start"), None);
}

#[test]
fn commands_are_called_by_their_texts() {
    assert_eq!(Command::parse("/start"), Some(Command::Start));
    assert_eq!(Command::parse("/main_menu"), Some(Command::MainMenu));
    assert_eq!(Command::parse("/cancel_operation"), Some(Command::CancelOperation));
    assert_eq!(Command::parse("/help"), Some(Command::Help));
    assert_eq!(Command::parse("start"), None);
    assert_eq!(Command::parse("/Start"), None);
    assert_eq!(Command::parse("/stop"), None);
    assert_eq!(Command::parse(""), None);
    for command in [Command::Start, Command::MainMenu, Command::CancelOperation, Command::Help] {
        assert_eq!(Command::parse(command.text()), Some(command));
    }
}

#[test]
fn help_lists_the_four_commands() {
    let help = Command::descriptions();
    assert!(help.starts_with("Доступные команды:\n\n"));
    assert_eq!(help.lines().count(), 6);
    assert!(help.contains("/start — Перезапустить бота"));
    assert!(help.contains("/main_menu — Перейти в главное меню"));
    assert!(help.contains("/cancel_operation — Отменить операцию"));
    assert!(help.contains("/help — Помощь"));
}

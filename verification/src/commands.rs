use crate::text::same_text;
use vstd::prelude::*;

verus! {

/// The slash-commands, which are obeyed in every dialogue state.
#[derive(Clone, Copy, Debug, PartialEq, Eq, Structural)]
pub enum Command {
    Start,
    MainMenu,
    CancelOperation,
    Help,
}

impl Command {
    /// The text that calls the command.
    pub open spec fn spec_text(self) -> Seq<char> {
        match self {
            Command::Start => "/start"@,
            Command::MainMenu => "/main_menu"@,
            Command::CancelOperation => "/cancel_operation"@,
            Command::Help => "/help"@,
        }
    }

    /// The command that `text` calls.
    pub open spec fn spec_parse(text: Seq<char>) -> Option<Command> {
        if text == Command::Start.spec_text() {
            Some(Command::Start)
        } else if text == Command::MainMenu.spec_text() {
            Some(Command::MainMenu)
        } else if text == Command::CancelOperation.spec_text() {
            Some(Command::CancelOperation)
        } else if text == Command::Help.spec_text() {
            Some(Command::Help)
        } else {
            None
        }
    }

    /// The text that calls the command.
    pub fn text(self) -> (r: &'static str)
        ensures
            r@ == self.spec_text(),
    {
        match self {
            Command::Start => "/start",
            Command::MainMenu => "/main_menu",
            Command::CancelOperation => "/cancel_operation",
            Command::Help => "/help",
        }
    }

    /// The command that `text` calls, if it is one.
    pub fn parse(text: &str) -> (r: Option<Command>)
        ensures
            r == Command::spec_parse(text@),
    {
        if same_text(text, "/start") {
            Some(Command::Start)
        } else if same_text(text, "/main_menu") {
            Some(Command::MainMenu)
        } else if same_text(text, "/cancel_operation") {
            Some(Command::CancelOperation)
        } else if same_text(text, "/help") {
            Some(Command::Help)
        } else {
            None
        }
    }

    /// The list of commands that `/help` answers with.
    pub open spec fn spec_descriptions() -> Seq<char> {
        "Доступные команды:\n\n/start — Перезапустить бота ♻️\n/main_menu — Перейти в главное меню 🏠\n/cancel_operation — Отменить операцию ❌\n/help — Помощь ℹ️"@
    }

    /// The list of commands that `/help` answers with.
    pub fn descriptions() -> (r: &'static str)
        ensures
            r@ == Command::spec_descriptions(),
    {
        "Доступные команды:\n\n/start — Перезапустить бота ♻️\n/main_menu — Перейти в главное меню 🏠\n/cancel_operation — Отменить операцию ❌\n/help — Помощь ℹ️"
    }

    /// Each command is called by its own text and by no other.
    pub proof fn lemma_parse_text(self)
        ensures
            Command::spec_parse(self.spec_text()) == Some(self),
    {
        reveal_strlit("/start");
        reveal_strlit("/main_menu");
        reveal_strlit("/cancel_operation");
        reveal_strlit("/help");
        assert("/start"@.len() == 6);
        assert("/main_menu"@.len() == 10);
        assert("/cancel_operation"@.len() == 17);
        assert("/help"@.len() == 5);
    }
}

/// What a tap on a button of the menu keyboards asks for.
#[derive(Clone, Copy, Debug, PartialEq, Eq, Structural)]
pub enum MenuAction {
    Classes,
    AddClass,
    DeductClass,
    ClassSettings,
    ListClasses,
    ClassesDeductionHistory,
    UpdateQuantity,
    MainMenu,
    DailyPracticeLog,
    AddDailyPracticeEntry,
    DailyPracticeLogHistory,
}

impl MenuAction {
    /// The label of the button.
    pub open spec fn spec_label(self) -> Seq<char> {
        match self {
            MenuAction::Classes => "Занятия"@,
            MenuAction::AddClass => "Добавить занятие"@,
            MenuAction::DeductClass => "Списать занятие"@,
            MenuAction::ClassSettings => "Настройка занятий"@,
            MenuAction::ListClasses => "Список занятий"@,
            MenuAction::ClassesDeductionHistory => "История списаний"@,
            MenuAction::UpdateQuantity => "Обновить количество"@,
            MenuAction::MainMenu => "Главное меню"@,
            MenuAction::DailyPracticeLog => "Дневник практик"@,
            MenuAction::AddDailyPracticeEntry => "Добавить запись"@,
            MenuAction::DailyPracticeLogHistory => "История практик"@,
        }
    }

    /// The action whose label is exactly `text`.
    pub open spec fn spec_parse(text: Seq<char>) -> Option<MenuAction> {
        if text == MenuAction::Classes.spec_label() {
            Some(MenuAction::Classes)
        } else if text == MenuAction::AddClass.spec_label() {
            Some(MenuAction::AddClass)
        } else if text == MenuAction::DeductClass.spec_label() {
            Some(MenuAction::DeductClass)
        } else if text == MenuAction::ClassSettings.spec_label() {
            Some(MenuAction::ClassSettings)
        } else if text == MenuAction::ListClasses.spec_label() {
            Some(MenuAction::ListClasses)
        } else if text == MenuAction::ClassesDeductionHistory.spec_label() {
            Some(MenuAction::ClassesDeductionHistory)
        } else if text == MenuAction::UpdateQuantity.spec_label() {
            Some(MenuAction::UpdateQuantity)
        } else if text == MenuAction::MainMenu.spec_label() {
            Some(MenuAction::MainMenu)
        } else if text == MenuAction::DailyPracticeLog.spec_label() {
            Some(MenuAction::DailyPracticeLog)
        } else if text == MenuAction::AddDailyPracticeEntry.spec_label() {
            Some(MenuAction::AddDailyPracticeEntry)
        } else if text == MenuAction::DailyPracticeLogHistory.spec_label() {
            Some(MenuAction::DailyPracticeLogHistory)
        } else {
            None
        }
    }

    /// The label of the button.
    pub fn label(self) -> (r: &'static str)
        ensures
            r@ == self.spec_label(),
    {
        match self {
            MenuAction::Classes => "Занятия",
            MenuAction::AddClass => "Добавить занятие",
            MenuAction::DeductClass => "Списать занятие",
            MenuAction::ClassSettings => "Настройка занятий",
            MenuAction::ListClasses => "Список занятий",
            MenuAction::ClassesDeductionHistory => "История списаний",
            MenuAction::UpdateQuantity => "Обновить количество",
            MenuAction::MainMenu => "Главное меню",
            MenuAction::DailyPracticeLog => "Дневник практик",
            MenuAction::AddDailyPracticeEntry => "Добавить запись",
            MenuAction::DailyPracticeLogHistory => "История практик",
        }
    }

    /// The action whose label is exactly `text`, if there is one.
    pub fn parse(text: &str) -> (r: Option<MenuAction>)
        ensures
            r == MenuAction::spec_parse(text@),
    {
        if same_text(text, "Занятия") {
            Some(MenuAction::Classes)
        } else if same_text(text, "Добавить занятие") {
            Some(MenuAction::AddClass)
        } else if same_text(text, "Списать занятие") {
            Some(MenuAction::DeductClass)
        } else if same_text(text, "Настройка занятий") {
            Some(MenuAction::ClassSettings)
        } else if same_text(text, "Список занятий") {
            Some(MenuAction::ListClasses)
        } else if same_text(text, "История списаний") {
            Some(MenuAction::ClassesDeductionHistory)
        } else if same_text(text, "Обновить количество") {
            Some(MenuAction::UpdateQuantity)
        } else if same_text(text, "Главное меню") {
            Some(MenuAction::MainMenu)
        } else if same_text(text, "Дневник практик") {
            Some(MenuAction::DailyPracticeLog)
        } else if same_text(text, "Добавить запись") {
            Some(MenuAction::AddDailyPracticeEntry)
        } else if same_text(text, "История практик") {
            Some(MenuAction::DailyPracticeLogHistory)
        } else {
            None
        }
    }

    /// A text is read as an action only if it is the label of that action.
    pub proof fn lemma_label_parsed(self, text: Seq<char>)
        requires
            MenuAction::spec_parse(text) == Some(self),
        ensures
            text == self.spec_label(),
    {
    }

    /// Every label is read back as its own action: no two buttons share a
    /// label.
    pub proof fn lemma_parse_label(self)
        ensures
            MenuAction::spec_parse(self.spec_label()) == Some(self),
    {
        reveal_strlit("Занятия");
        reveal_strlit("Добавить занятие");
        reveal_strlit("Списать занятие");
        reveal_strlit("Настройка занятий");
        reveal_strlit("Список занятий");
        reveal_strlit("История списаний");
        reveal_strlit("Обновить количество");
        reveal_strlit("Главное меню");
        reveal_strlit("Дневник практик");
        reveal_strlit("Добавить запись");
        reveal_strlit("История практик");
        assert("Занятия"@.len() == 7);
        assert("Добавить занятие"@.len() == 16 && "Добавить занятие"@[9] == 'з');
        assert("Списать занятие"@.len() == 15 && "Списать занятие"@[0] == 'С');
        assert("Настройка занятий"@.len() == 17);
        assert("Список занятий"@.len() == 14);
        assert("История списаний"@.len() == 16 && "История списаний"@[0] == 'И');
        assert("Обновить количество"@.len() == 19);
        assert("Главное меню"@.len() == 12);
        assert("Дневник практик"@.len() == 15 && "Дневник практик"@[0] == 'Д' && "Дневник практик"@[1] == 'н');
        assert("Добавить запись"@.len() == 15 && "Добавить запись"@[0] == 'Д' && "Добавить запись"@[1] == 'о');
        assert("История практик"@.len() == 15 && "История практик"@[0] == 'И');
    }
}

} // verus!

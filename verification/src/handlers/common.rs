use crate::action::{action_views, say, say_with, Action, ActionView, Transition};
use crate::commands::MenuAction;
use crate::database::{Database, DatabaseView};
use crate::handlers::class::{
    answer_and_edit,
    choose_class_spec,
    class_settings_entries,
    class_settings_handler,
    classes_menu_entries,
    classes_menu_handler,
    deduct_class_callback_handler,
    deduct_outcome,
    history_callback_spec,
    list_classes_deduction_history_callback_handler,
    list_classes_deduction_history_handler,
    list_classes_for_deduction_handler,
    list_classes_handler,
    list_classes_spec,
    update_class_quantity_callback_handler,
    update_quantity_handler,
};
use crate::handlers::command::{main_menu_handler, main_menu_spec};
use crate::handlers::daily_practice_log::{
    daily_practice_log_menu_entries,
    daily_practice_log_menu_handler,
    list_daily_practice_log_history_handler,
    list_daily_practice_log_history_spec,
};
use crate::handlers::menu::menu_markup;
use crate::state::{State, StateView};
use crate::text::{chars_of, option_text, parse_i64, parse_signed, same_text};
use crate::update::{CallbackQuery, Message, MessageRef};
use vstd::prelude::*;

verus! {

/// What a tap on an inline button asks for.
#[derive(Clone, Copy, Debug, PartialEq, Eq, Structural)]
pub enum CallbackAction {
    DeductClass,
    UpdateQuantity,
    ClassDeductionHistory,
}

impl CallbackAction {
    /// The word that stands for the action in a payload.
    pub open spec fn spec_name(self) -> Seq<char> {
        match self {
            CallbackAction::DeductClass => "deduct_class"@,
            CallbackAction::UpdateQuantity => "update_quantity"@,
            CallbackAction::ClassDeductionHistory => "class_deduction_history"@,
        }
    }

    /// The action that `name` stands for.
    pub open spec fn named(name: Seq<char>) -> Option<CallbackAction> {
        if name == CallbackAction::DeductClass.spec_name() {
            Some(CallbackAction::DeductClass)
        } else if name == CallbackAction::UpdateQuantity.spec_name() {
            Some(CallbackAction::UpdateQuantity)
        } else if name == CallbackAction::ClassDeductionHistory.spec_name() {
            Some(CallbackAction::ClassDeductionHistory)
        } else {
            None
        }
    }
}

/// Whether `at` is the place of the first colon of `data`.
pub open spec fn first_colon(data: Seq<char>, at: int) -> bool {
    &&& 0 <= at < data.len()
    &&& data[at] == ':'
    &&& forall|j: int| 0 <= j < at ==> data[j] != ':'
}

/// The payload of an inline button read by its grammar: the name of an
/// action, a colon, and the identifier of a class as a decimal integer.
/// `None` for every other text.
pub open spec fn callback_of(data: Seq<char>) -> Option<(CallbackAction, i64)> {
    if exists|at: int| first_colon(data, at) {
        let at = choose|at: int| first_colon(data, at);
        match (CallbackAction::named(data.take(at)), parse_signed(data.skip(at + 1))) {
            (Some(action), Some(class_id)) => Some((action, class_id as i64)),
            _ => None,
        }
    } else {
        None
    }
}

/// Reads the payload of an inline button.
pub fn parse_callback(data: &str) -> (r: Option<(CallbackAction, i64)>)
    ensures
        r == callback_of(data@),
{
    let chars = chars_of(data);
    let mut at: usize = 0;
    while at < chars.len() && chars[at] != ':'
        invariant
            0 <= at <= chars.len(),
            forall|j: int| 0 <= j < at ==> chars@[j] != ':',
        decreases chars.len() - at,
    {
        at = at + 1;
    }
    if at == chars.len() {
        assert(!exists|k: int| first_colon(data@, k));
        return None;
    }
    proof {
        assert(first_colon(data@, at as int));
        let chosen = choose|k: int| first_colon(data@, k);
        assert(chosen == at) by {
            if chosen < at {
                assert(data@[chosen] != ':');
            } else if at < chosen {
                assert(data@[at as int] != ':');
            }
        }
        assert(data@.take(at as int) =~= data@.subrange(0, at as int));
        assert(data@.skip(at + 1) =~= data@.subrange(at + 1, data@.len() as int));
    }
    let name = data.substring_char(0, at);
    let id = data.substring_char(at + 1, chars.len());
    let action = if same_text(name, "deduct_class") {
        CallbackAction::DeductClass
    } else if same_text(name, "update_quantity") {
        CallbackAction::UpdateQuantity
    } else if same_text(name, "class_deduction_history") {
        CallbackAction::ClassDeductionHistory
    } else {
        return None;
    };
    match parse_i64(id) {
        Some(class_id) => Some((action, class_id)),
        None => None,
    }
}

/// What an idle chat does with a message: a menu label opens its menu,
/// lists what it names or begins an exchange; any other text is answered
/// with a notice; anything that is no text is passed over.
pub open spec fn idle_message_spec(db: DatabaseView, chat_id: i64, text: Option<Seq<char>>) -> (
    StateView,
    Seq<ActionView>,
) {
    match text {
        None => (StateView::Idle, Seq::empty()),
        Some(text) => match MenuAction::spec_parse(text) {
            Some(MenuAction::Classes) => (
                StateView::Idle,
                seq![
                    say_with(
                        chat_id,
                        "Переход в раздел Занятия"@,
                        menu_markup(classes_menu_entries()),
                        true,
                    ),
                ],
            ),
            Some(MenuAction::AddClass) => (
                StateView::AddingClassReceiveName,
                seq![say(chat_id, "Введите название"@)],
            ),
            Some(MenuAction::DeductClass) => (
                StateView::Idle,
                choose_class_spec(
                    db,
                    chat_id,
                    "Выберите занятие для списания"@,
                    Some("У вас нет занятий для списания"@),
                    "deduct_class:"@,
                ),
            ),
            Some(MenuAction::ClassSettings) => (
                StateView::Idle,
                seq![
                    say_with(
                        chat_id,
                        "Настройки занятий"@,
                        menu_markup(class_settings_entries()),
                        true,
                    ),
                ],
            ),
            Some(MenuAction::ListClasses) => (StateView::Idle, list_classes_spec(db, chat_id)),
            Some(MenuAction::ClassesDeductionHistory) => (
                StateView::Idle,
                choose_class_spec(
                    db,
                    chat_id,
                    "Выберите занятие для просмотра истории списаний"@,
                    Some("У вас нет добавленных занятий"@),
                    "class_deduction_history:"@,
                ),
            ),
            Some(MenuAction::UpdateQuantity) => (
                StateView::Idle,
                choose_class_spec(
                    db,
                    chat_id,
                    "Выберите занятие для обновления"@,
                    None,
                    "update_quantity:"@,
                ),
            ),
            Some(MenuAction::MainMenu) => (StateView::Idle, main_menu_spec(chat_id)),
            Some(MenuAction::DailyPracticeLog) => (
                StateView::Idle,
                seq![
                    say_with(
                        chat_id,
                        "Переход в раздел Дневник практик"@,
                        menu_markup(daily_practice_log_menu_entries()),
                        false,
                    ),
                ],
            ),
            Some(MenuAction::AddDailyPracticeEntry) => (
                StateView::AddingDailyPracticeReceiveMinutes,
                seq![
                    say(
                        chat_id,
                        "Будет добавлена запись о вашей практике за сегодня.\nВведите количество минут:"@,
                    ),
                ],
            ),
            Some(MenuAction::DailyPracticeLogHistory) => (
                StateView::Idle,
                list_daily_practice_log_history_spec(db, chat_id),
            ),
            None => (StateView::Idle, seq![say(chat_id, "Команда не найдена!"@)]),
        },
    }
}

fn one(action: Action) -> (actions: Vec<Action>)
    ensures
        action_views(actions@) == seq![action@],
{
    let mut actions: Vec<Action> = Vec::new();
    actions.push(action);
    assert(action_views(actions@) =~= seq![action@]);
    actions
}

/// Handles a message to an idle chat.
pub fn idle_message_handler(db: &Database, msg: &Message) -> (r: Transition)
    requires
        db.wf(),
    ensures
        r@ == idle_message_spec(db@, msg.chat_id, option_text(msg.text)),
{
    let text = match &msg.text {
        Some(text) => text,
        None => {
            let actions: Vec<Action> = Vec::new();
            assert(action_views(actions@) =~= Seq::<ActionView>::empty());
            return Transition { state: State::Idle, actions };
        },
    };
    match MenuAction::parse(text.as_str()) {
        Some(MenuAction::Classes) => Transition {
            state: State::Idle,
            actions: classes_menu_handler(msg),
        },
        Some(MenuAction::AddClass) => Transition {
            state: State::AddingClassReceiveName,
            actions: one(Action::say(msg.chat_id, "Введите название".to_owned())),
        },
        Some(MenuAction::DeductClass) => Transition {
            state: State::Idle,
            actions: list_classes_for_deduction_handler(db, msg),
        },
        Some(MenuAction::ClassSettings) => Transition {
            state: State::Idle,
            actions: class_settings_handler(msg),
        },
        Some(MenuAction::ListClasses) => Transition {
            state: State::Idle,
            actions: list_classes_handler(db, msg),
        },
        Some(MenuAction::ClassesDeductionHistory) => Transition {
            state: State::Idle,
            actions: list_classes_deduction_history_handler(db, msg),
        },
        Some(MenuAction::UpdateQuantity) => Transition {
            state: State::Idle,
            actions: update_quantity_handler(db, msg),
        },
        Some(MenuAction::MainMenu) => Transition {
            state: State::Idle,
            actions: main_menu_handler(msg),
        },
        Some(MenuAction::DailyPracticeLog) => Transition {
            state: State::Idle,
            actions: daily_practice_log_menu_handler(msg),
        },
        Some(MenuAction::AddDailyPracticeEntry) => Transition {
            state: State::AddingDailyPracticeReceiveMinutes,
            actions: one(
                Action::say(
                    msg.chat_id,
                    "Будет добавлена запись о вашей практике за сегодня.\nВведите количество минут:".to_owned(),
                ),
            ),
        },
        Some(MenuAction::DailyPracticeLogHistory) => Transition {
            state: State::Idle,
            actions: list_daily_practice_log_history_handler(db, msg),
        },
        None => Transition {
            state: State::Idle,
            actions: one(Action::say(msg.chat_id, "Команда не найдена!".to_owned())),
        },
    }
}

/// What an idle chat does with a tap on an inline button: a payload of the
/// grammar is acknowledged and obeyed; any other is passed over.
pub open spec fn idle_callback_spec(
    db: DatabaseView,
    from_id: u64,
    query_id: Seq<char>,
    message: Option<MessageRef>,
    data: Option<Seq<char>>,
    now: Seq<char>,
) -> (DatabaseView, (StateView, Seq<ActionView>)) {
    let request = match data {
        Some(data) => callback_of(data),
        None => None,
    };
    match request {
        None => (db, (StateView::Idle, Seq::empty())),
        Some((CallbackAction::DeductClass, class_id)) => (
            deduct_outcome(db, from_id, class_id, now).0,
            (
                StateView::Idle,
                answer_and_edit(query_id, message, deduct_outcome(db, from_id, class_id, now).1),
            ),
        ),
        Some((CallbackAction::UpdateQuantity, class_id)) => (
            db,
            (
                StateView::UpdatingClassReceiveQuantity { class_id },
                answer_and_edit(query_id, message, "Введите количество"@),
            ),
        ),
        Some((CallbackAction::ClassDeductionHistory, class_id)) => (
            db,
            (StateView::Idle, history_callback_spec(db, from_id, query_id, message, class_id)),
        ),
    }
}

/// Handles a tap on an inline button in an idle chat; `now` is the moment
/// to note on what the tap records.
pub fn idle_callback_handler(db: &mut Database, q: &CallbackQuery, now: &str) -> (r: Transition)
    requires
        old(db).wf(),
    ensures
        final(db).wf(),
        (final(db)@, r@) == idle_callback_spec(
            old(db)@,
            q.from_id,
            q.id@,
            q.message,
            option_text(q.data),
            now@,
        ),
{
    let request = match &q.data {
        Some(data) => parse_callback(data.as_str()),
        None => None,
    };
    match request {
        None => {
            let actions: Vec<Action> = Vec::new();
            assert(action_views(actions@) =~= Seq::<ActionView>::empty());
            Transition { state: State::Idle, actions }
        },
        Some((CallbackAction::DeductClass, class_id)) => Transition {
            state: State::Idle,
            actions: deduct_class_callback_handler(db, q, class_id, now),
        },
        Some((CallbackAction::UpdateQuantity, class_id)) => update_class_quantity_callback_handler(
            q,
            class_id,
        ),
        Some((CallbackAction::ClassDeductionHistory, class_id)) => Transition {
            state: State::Idle,
            actions: list_classes_deduction_history_callback_handler(db, q, class_id),
        },
    }
}

} // verus!

use crate::action::{
    acknowledge,
    action_views,
    edit,
    say,
    say_html,
    say_with,
    Action,
    ActionView,
    ReplyMarkup,
    ReplyMarkupView,
    Transition,
};
use crate::commands::MenuAction;
use crate::database::{Database, DatabaseView};
use crate::handlers::menu::{menu, menu_markup};
use crate::keyboards::{chunks, class_button, make_class_list_inline_keyboard};
use crate::repositories::class::{class_views, Class, ClassView};
use crate::repositories::class_deduction_history::{
    history_views,
    ClassDeductionHistory,
    ClassDeductionHistoryView,
};
use crate::services::class::{
    add_class,
    add_class_deduction_history,
    add_class_deduction_history_spec,
    add_class_spec,
    deduct_class,
    deduct_class_spec,
    get_class_deduction_histories,
    get_classes_by_user_id,
    get_classes_spec,
    get_deduction_histories_spec,
    update_class_quantity,
    update_class_quantity_spec,
};
use crate::state::{State, StateView};
use crate::text::{
    decimal_digits,
    join,
    join_lines,
    option_text,
    parse_u8,
    parse_unsigned,
    push_decimal,
    texts_of,
};
use crate::errors::{ServiceError, UserNotFoundError};
use crate::update::{CallbackQuery, Message, MessageRef};
use vstd::prelude::*;

verus! {

/// What a text is read as where a quantity is asked for.
pub open spec fn quantity_of(text: Option<Seq<char>>) -> Option<u8> {
    match text {
        Some(text) => match parse_unsigned(text, 255) {
            Some(n) => Some(n as u8),
            None => None,
        },
        None => None,
    }
}

fn read_quantity(msg: &Message) -> (r: Option<u8>)
    ensures
        r == quantity_of(option_text(msg.text)),
{
    match &msg.text {
        Some(text) => parse_u8(text.as_str()),
        None => None,
    }
}

/// What the chat moves to, and what is said, when a message arrives while
/// the name of a new class is awaited: a text is taken as the name; on
/// anything else the question is repeated.
pub open spec fn receive_name_spec(chat_id: i64, text: Option<Seq<char>>) -> (
    StateView,
    Seq<ActionView>,
) {
    match text {
        Some(name) => (
            StateView::AddingClassReceiveQuantity { name },
            seq![say(chat_id, "Введите количество занятий"@)],
        ),
        None => (StateView::AddingClassReceiveName, seq![say(chat_id, "Отправьте текст"@)]),
    }
}

/// Handles a message while the name of a new class is awaited.
pub fn receive_name(msg: &Message) -> (r: Transition)
    ensures
        r@ == receive_name_spec(msg.chat_id, option_text(msg.text)),
{
    let mut actions: Vec<Action> = Vec::new();
    match &msg.text {
        Some(text) => {
            actions.push(Action::say(msg.chat_id, "Введите количество занятий".to_owned()));
            assert(action_views(actions@) =~= seq![
                say(msg.chat_id, "Введите количество занятий"@),
            ]);
            Transition { state: State::AddingClassReceiveQuantity { name: text.clone() }, actions }
        },
        None => {
            actions.push(Action::say(msg.chat_id, "Отправьте текст".to_owned()));
            assert(action_views(actions@) =~= seq![say(msg.chat_id, "Отправьте текст"@)]);
            Transition { state: State::AddingClassReceiveName, actions }
        },
    }
}

/// What happens when a message arrives while the quantity of a new class
/// is awaited: a number that fits eight bits ends the exchange with the
/// outcome of `add_class`; on anything else the question is repeated and
/// the name is kept.
pub open spec fn receive_quantity_spec(
    db: DatabaseView,
    name: Seq<char>,
    chat_id: i64,
    text: Option<Seq<char>>,
) -> (DatabaseView, (StateView, Seq<ActionView>)) {
    match quantity_of(text) {
        Some(quantity) => {
            let (after, added) = add_class_spec(db, name, quantity, chat_id);
            let report = match added {
                Ok(_) => "✅ Занятие успешно добавлено!"@,
                Err(e) => e.message(),
            };
            (after, (StateView::Idle, seq![say(chat_id, report)]))
        },
        None => (
            db,
            (StateView::AddingClassReceiveQuantity { name }, seq![say(chat_id, "Отправьте число"@)]),
        ),
    }
}

/// Handles a message while the quantity of the new class `name` is
/// awaited.
pub fn receive_quantity(db: &mut Database, name: String, msg: &Message) -> (r: Transition)
    requires
        old(db).wf(),
    ensures
        final(db).wf(),
        (final(db)@, r@) == receive_quantity_spec(
            old(db)@,
            name@,
            msg.chat_id,
            option_text(msg.text),
        ),
{
    let mut actions: Vec<Action> = Vec::new();
    match read_quantity(msg) {
        Some(quantity) => {
            let ghost wanted = receive_quantity_spec(
                old(db)@,
                name@,
                msg.chat_id,
                option_text(msg.text),
            ).1.1;
            let report = match add_class(db, name, quantity, msg.chat_id) {
                Ok(_) => "✅ Занятие успешно добавлено!".to_owned(),
                Err(err) => err.to_string(),
            };
            actions.push(Action::say(msg.chat_id, report));
            assert(action_views(actions@) =~= wanted);
            Transition { state: State::Idle, actions }
        },
        None => {
            actions.push(Action::say(msg.chat_id, "Отправьте число".to_owned()));
            assert(action_views(actions@) =~= seq![say(msg.chat_id, "Отправьте число"@)]);
            Transition { state: State::AddingClassReceiveQuantity { name }, actions }
        },
    }
}

/// The report of a class operation that went through: what was done to
/// which class, and what is left of it.
pub open spec fn class_report(done: Seq<char>, class: ClassView) -> Seq<char> {
    "✅ Занятие "@ + class.name + " успешно "@ + done + "! Остаток: "@ + decimal_digits(
        class.quantity as nat,
    )
}

fn report_class(done: &str, class: &Class) -> (text: String)
    ensures
        text@ == class_report(done@, class@),
{
    let mut text = "✅ Занятие ".to_owned();
    text.append(class.name.as_str());
    text.append(" успешно ");
    text.append(done);
    text.append("! Остаток: ");
    push_decimal(&mut text, class.quantity as u64);
    text
}

/// What happens when a message arrives while the new quantity of the class
/// `class_id` is awaited: a number that fits eight bits ends the exchange
/// with the outcome of `update_class_quantity`; on anything else the
/// question is repeated.
pub open spec fn receive_quantity_handler_spec(
    db: DatabaseView,
    class_id: i64,
    chat_id: i64,
    text: Option<Seq<char>>,
) -> (DatabaseView, (StateView, Seq<ActionView>)) {
    match quantity_of(text) {
        Some(quantity) => {
            let (after, updated) = update_class_quantity_spec(db, class_id, chat_id, quantity);
            let report = match updated {
                Ok(class) => class_report("обновлено"@, class),
                Err(e) => e.message(),
            };
            (after, (StateView::Idle, seq![say_html(chat_id, report)]))
        },
        None => (
            db,
            (
                StateView::UpdatingClassReceiveQuantity { class_id },
                seq![say(chat_id, "Отправьте число"@)],
            ),
        ),
    }
}

/// Handles a message while the new quantity of the class `class_id` is
/// awaited.
pub fn receive_quantity_handler(db: &mut Database, msg: &Message, class_id: i64) -> (r:
    Transition)
    requires
        old(db).wf(),
    ensures
        final(db).wf(),
        (final(db)@, r@) == receive_quantity_handler_spec(
            old(db)@,
            class_id,
            msg.chat_id,
            option_text(msg.text),
        ),
{
    let mut actions: Vec<Action> = Vec::new();
    match read_quantity(msg) {
        Some(quantity) => {
            let ghost wanted = receive_quantity_handler_spec(
                old(db)@,
                class_id,
                msg.chat_id,
                option_text(msg.text),
            ).1.1;
            let output = match update_class_quantity(db, class_id, msg.chat_id, quantity) {
                Ok(class) => report_class("обновлено", &class),
                Err(err) => err.to_string(),
            };
            actions.push(Action::say_html(msg.chat_id, output));
            assert(action_views(actions@) =~= wanted);
            Transition { state: State::Idle, actions }
        },
        None => {
            actions.push(Action::say(msg.chat_id, "Отправьте число".to_owned()));
            assert(action_views(actions@) =~= seq![say(msg.chat_id, "Отправьте число"@)]);
            Transition { state: State::UpdatingClassReceiveQuantity { class_id }, actions }
        },
    }
}

/// The entries of the classes menu.
pub open spec fn classes_menu_entries() -> Seq<MenuAction> {
    seq![
        MenuAction::DeductClass,
        MenuAction::ClassSettings,
        MenuAction::ListClasses,
        MenuAction::ClassesDeductionHistory,
        MenuAction::MainMenu,
    ]
}

/// Opens the classes menu.
pub fn classes_menu_handler(msg: &Message) -> (actions: Vec<Action>)
    ensures
        action_views(actions@) == seq![
            say_with(
                msg.chat_id,
                "Переход в раздел Занятия"@,
                menu_markup(classes_menu_entries()),
                true,
            ),
        ],
{
    let mut entries: Vec<MenuAction> = Vec::new();
    entries.push(MenuAction::DeductClass);
    entries.push(MenuAction::ClassSettings);
    entries.push(MenuAction::ListClasses);
    entries.push(MenuAction::ClassesDeductionHistory);
    entries.push(MenuAction::MainMenu);
    assert(entries@ =~= classes_menu_entries());
    let mut actions: Vec<Action> = Vec::new();
    actions.push(
        Action::say_with(msg.chat_id, "Переход в раздел Занятия".to_owned(), menu(entries), true),
    );
    assert(action_views(actions@) =~= seq![
        say_with(
            msg.chat_id,
            "Переход в раздел Занятия"@,
            menu_markup(classes_menu_entries()),
            true,
        ),
    ]);
    actions
}

/// The entries of the class settings menu.
pub open spec fn class_settings_entries() -> Seq<MenuAction> {
    seq![MenuAction::AddClass, MenuAction::UpdateQuantity, MenuAction::MainMenu]
}

/// Opens the class settings menu.
pub fn class_settings_handler(msg: &Message) -> (actions: Vec<Action>)
    ensures
        action_views(actions@) == seq![
            say_with(
                msg.chat_id,
                "Настройки занятий"@,
                menu_markup(class_settings_entries()),
                true,
            ),
        ],
{
    let mut entries: Vec<MenuAction> = Vec::new();
    entries.push(MenuAction::AddClass);
    entries.push(MenuAction::UpdateQuantity);
    entries.push(MenuAction::MainMenu);
    assert(entries@ =~= class_settings_entries());
    let mut actions: Vec<Action> = Vec::new();
    actions.push(
        Action::say_with(msg.chat_id, "Настройки занятий".to_owned(), menu(entries), true),
    );
    assert(action_views(actions@) =~= seq![
        say_with(
            msg.chat_id,
            "Настройки занятий"@,
            menu_markup(class_settings_entries()),
            true,
        ),
    ]);
    actions
}

/// The lines of a list of classes.
pub open spec fn class_lines(classes: Seq<ClassView>) -> Seq<Seq<char>> {
    classes.map_values(|c: ClassView| c.rendered())
}

/// What listing the classes of a chat sends: the classes, one to a line;
/// a notice where there is none; the error where the chat is no user.
pub open spec fn list_classes_spec(db: DatabaseView, chat_id: i64) -> Seq<ActionView> {
    match get_classes_spec(db, chat_id) {
        Err(e) => seq![say(chat_id, e.message())],
        Ok(classes) => if classes.len() == 0 {
            seq![say_html(chat_id, "У вас нет добавленных занятий"@)]
        } else {
            seq![say_html(chat_id, join_lines(class_lines(classes)))]
        },
    }
}

/// Lists the classes of the chat.
pub fn list_classes_handler(db: &Database, msg: &Message) -> (actions: Vec<Action>)
    requires
        db.wf(),
    ensures
        action_views(actions@) == list_classes_spec(db@, msg.chat_id),
{
    let mut actions: Vec<Action> = Vec::new();
    let classes = match get_classes_by_user_id(db, msg.chat_id) {
        Ok(classes) => classes,
        Err(err) => {
            actions.push(Action::say(msg.chat_id, err.to_string()));
            assert(action_views(actions@) =~= list_classes_spec(db@, msg.chat_id));
            return actions;
        },
    };
    if classes.len() == 0 {
        actions.push(Action::say_html(msg.chat_id, "У вас нет добавленных занятий".to_owned()));
        assert(action_views(actions@) =~= list_classes_spec(db@, msg.chat_id));
        return actions;
    }
    let mut lines: Vec<String> = Vec::new();
    let mut i: usize = 0;
    while i < classes.len()
        invariant
            0 <= i <= classes.len(),
            texts_of(lines@) == class_lines(class_views(classes@)).take(i as int),
        decreases classes.len() - i,
    {
        let ghost before = lines@;
        lines.push(classes[i].to_string());
        assert(texts_of(lines@) =~= texts_of(before).push(classes@[i as int]@.rendered()));
        assert(texts_of(lines@) =~= class_lines(class_views(classes@)).take(i + 1));
        i = i + 1;
    }
    assert(class_lines(class_views(classes@)).take(i as int) =~= class_lines(
        class_views(classes@),
    ));
    let output = join(&lines);
    actions.push(Action::say_html(msg.chat_id, output));
    assert(action_views(actions@) =~= list_classes_spec(db@, msg.chat_id));
    actions
}

/// The inline keyboard that offers `classes`, two to a row; a tap sends
/// `prefix` and the identifier of the class.
pub open spec fn class_list_markup(classes: Seq<ClassView>, prefix: Seq<char>) -> ReplyMarkupView {
    ReplyMarkupView::InlineKeyboard {
        buttons: chunks(classes.map_values(|c: ClassView| class_button(c, prefix)), 2),
    }
}

fn class_list(classes: Vec<Class>, prefix: &str) -> (markup: ReplyMarkup)
    ensures
        markup@ == class_list_markup(class_views(classes@), prefix@),
{
    let ghost all = classes@;
    let keyboard = make_class_list_inline_keyboard(classes, 2, prefix);
    assert(all.map_values(|c: Class| class_button(c@, prefix@)) =~= class_views(all).map_values(
        |c: ClassView| class_button(c, prefix@),
    ));
    ReplyMarkup::InlineKeyboard(keyboard)
}

/// What offering the classes of a chat for a choice sends: the question
/// `ask` over one button per class; the notice `none` where there is no
/// class and a notice is given; the error where the chat is no user.
pub open spec fn choose_class_spec(
    db: DatabaseView,
    chat_id: i64,
    ask: Seq<char>,
    none: Option<Seq<char>>,
    prefix: Seq<char>,
) -> Seq<ActionView> {
    match get_classes_spec(db, chat_id) {
        Err(e) => seq![say(chat_id, e.message())],
        Ok(classes) => if classes.len() == 0 && none is Some {
            seq![say_html(chat_id, none.unwrap())]
        } else {
            seq![say_with(chat_id, ask, class_list_markup(classes, prefix), true)]
        },
    }
}

fn choose_class(db: &Database, chat_id: i64, ask: &str, none: Option<&str>, prefix: &str) -> (actions:
    Vec<Action>)
    requires
        db.wf(),
    ensures
        action_views(actions@) == choose_class_spec(
            db@,
            chat_id,
            ask@,
            match none {
                Some(text) => Some(text@),
                None => None,
            },
            prefix@,
        ),
{
    let ghost wanted = choose_class_spec(
        db@,
        chat_id,
        ask@,
        match none {
            Some(text) => Some(text@),
            None => None,
        },
        prefix@,
    );
    let mut actions: Vec<Action> = Vec::new();
    let classes = match get_classes_by_user_id(db, chat_id) {
        Ok(classes) => classes,
        Err(err) => {
            actions.push(Action::say(chat_id, err.to_string()));
            assert(action_views(actions@) =~= wanted);
            return actions;
        },
    };
    if classes.len() == 0 {
        match none {
            Some(text) => {
                actions.push(Action::say_html(chat_id, text.to_owned()));
                assert(action_views(actions@) =~= wanted);
                return actions;
            },
            None => {},
        }
    }
    actions.push(Action::say_with(chat_id, ask.to_owned(), class_list(classes, prefix), true));
    assert(action_views(actions@) =~= wanted);
    actions
}

/// Offers the classes of the chat for a deduction.
pub fn list_classes_for_deduction_handler(db: &Database, msg: &Message) -> (actions: Vec<Action>)
    requires
        db.wf(),
    ensures
        action_views(actions@) == choose_class_spec(
            db@,
            msg.chat_id,
            "Выберите занятие для списания"@,
            Some("У вас нет занятий для списания"@),
            "deduct_class:"@,
        ),
{
    choose_class(
        db,
        msg.chat_id,
        "Выберите занятие для списания",
        Some("У вас нет занятий для списания"),
        "deduct_class:",
    )
}

/// Offers the classes of the chat for a new quantity.
pub fn update_quantity_handler(db: &Database, msg: &Message) -> (actions: Vec<Action>)
    requires
        db.wf(),
    ensures
        action_views(actions@) == choose_class_spec(
            db@,
            msg.chat_id,
            "Выберите занятие для обновления"@,
            None,
            "update_quantity:"@,
        ),
{
    choose_class(db, msg.chat_id, "Выберите занятие для обновления", None, "update_quantity:")
}

/// Offers the classes of the chat for a look at their deductions.
pub fn list_classes_deduction_history_handler(db: &Database, msg: &Message) -> (actions: Vec<
    Action,
>)
    requires
        db.wf(),
    ensures
        action_views(actions@) == choose_class_spec(
            db@,
            msg.chat_id,
            "Выберите занятие для просмотра истории списаний"@,
            Some("У вас нет добавленных занятий"@),
            "class_deduction_history:"@,
        ),
{
    choose_class(
        db,
        msg.chat_id,
        "Выберите занятие для просмотра истории списаний",
        Some("У вас нет добавленных занятий"),
        "class_deduction_history:",
    )
}

/// The external identifier under which the sender of a tap is looked up;
/// `None` for a number that no user row can hold.
pub open spec fn telegram_id_of(from_id: u64) -> Option<i64> {
    if from_id <= i64::MAX {
        Some(from_id as i64)
    } else {
        None
    }
}

/// The external identifier under which the sender of a tap is looked up.
pub fn telegram_id(from_id: u64) -> (r: Option<i64>)
    ensures
        r == telegram_id_of(from_id),
{
    if from_id <= 0x7fff_ffff_ffff_ffff {
        Some(from_id as i64)
    } else {
        None
    }
}

/// The acknowledgement of a tap, and after it the new text of the message
/// under which the button stands, where that message can be reached.
pub open spec fn answer_and_edit(
    query_id: Seq<char>,
    message: Option<MessageRef>,
    output: Seq<char>,
) -> Seq<ActionView> {
    match message {
        Some(at) => seq![acknowledge(query_id), edit(at, output)],
        None => seq![acknowledge(query_id)],
    }
}

fn answer_then_edit(q: &CallbackQuery, output: String) -> (actions: Vec<Action>)
    ensures
        action_views(actions@) == answer_and_edit(q.id@, q.message, output@),
{
    let mut actions: Vec<Action> = Vec::new();
    actions.push(Action::acknowledge(q.id.as_str()));
    match q.message {
        Some(at) => {
            actions.push(Action::edit(at, output));
        },
        None => {},
    }
    assert(action_views(actions@) =~= answer_and_edit(q.id@, q.message, output@));
    actions
}

/// What a tap on a class offered for deduction does to the store, and the
/// text that reports it: the deduction, then its history entry made at
/// `now`; success is reported only when both went through, and the first
/// failure is reported otherwise. A sender that no user row can hold is
/// told that the user was not found.
pub open spec fn deduct_outcome(db: DatabaseView, from_id: u64, class_id: i64, now: Seq<char>) -> (
    DatabaseView,
    Seq<char>,
) {
    match telegram_id_of(from_id) {
        None => (db, ServiceError::UserNotFound(UserNotFoundError).message()),
        Some(telegram_user_id) => {
            let (deducted_db, deducted) = deduct_class_spec(db, class_id, telegram_user_id);
            match deducted {
                Err(e) => (deducted_db, e.message()),
                Ok(class) => {
                    let (recorded, noted) = add_class_deduction_history_spec(
                        deducted_db,
                        class_id,
                        telegram_user_id,
                        now,
                    );
                    (
                        recorded,
                        match noted {
                            Ok(_) => class_report("списано"@, class),
                            Err(e) => e.message(),
                        },
                    )
                },
            }
        },
    }
}

/// Handles a tap on a class offered for deduction: acknowledges it, takes
/// one session off the class `class_id`, records the deduction as made at
/// `now`, and writes the outcome into the message.
pub fn deduct_class_callback_handler(
    db: &mut Database,
    q: &CallbackQuery,
    class_id: i64,
    now: &str,
) -> (actions: Vec<Action>)
    requires
        old(db).wf(),
    ensures
        final(db).wf(),
        final(db)@ == deduct_outcome(old(db)@, q.from_id, class_id, now@).0,
        action_views(actions@) == answer_and_edit(
            q.id@,
            q.message,
            deduct_outcome(old(db)@, q.from_id, class_id, now@).1,
        ),
{
    let output = match telegram_id(q.from_id) {
        None => ServiceError::UserNotFound(UserNotFoundError).to_string(),
        Some(telegram_user_id) => match deduct_class(db, class_id, telegram_user_id) {
            Ok(class) => match add_class_deduction_history(
                db,
                class_id,
                telegram_user_id,
                now.to_owned(),
            ) {
                Ok(_) => report_class("списано", &class),
                Err(err) => err.to_string(),
            },
            Err(err) => err.to_string(),
        },
    };
    answer_then_edit(q, output)
}

/// Handles a tap on a class offered for a new quantity: acknowledges it and
/// asks for the quantity; the chat now awaits it.
pub fn update_class_quantity_callback_handler(q: &CallbackQuery, class_id: i64) -> (r: Transition)
    ensures
        r@ == (
            StateView::UpdatingClassReceiveQuantity { class_id },
            answer_and_edit(q.id@, q.message, "Введите количество"@),
        ),
{
    let actions = answer_then_edit(q, "Введите количество".to_owned());
    Transition { state: State::UpdatingClassReceiveQuantity { class_id }, actions }
}

/// The lines of a deduction history: each row as it is shown, or its
/// stored text where that is no moment of the calendar.
pub open spec fn history_lines(rows: Seq<ClassDeductionHistoryView>) -> Seq<Seq<char>> {
    rows.map_values(
        |h: ClassDeductionHistoryView|
            if h.renders() {
                h.rendered()
            } else {
                h.created_at
            },
    )
}

/// The text that shows the deductions of a class to the sender of a tap.
pub open spec fn history_output(db: DatabaseView, from_id: u64, class_id: i64) -> Seq<char> {
    match telegram_id_of(from_id) {
        None => ServiceError::UserNotFound(UserNotFoundError).message(),
        Some(telegram_user_id) => match get_deduction_histories_spec(
            db,
            class_id,
            telegram_user_id,
        ) {
            Err(e) => e.message(),
            Ok(rows) => if rows.len() == 0 {
                "История списаний пуста"@
            } else {
                join_lines(history_lines(rows))
            },
        },
    }
}

/// What a tap on a class offered for a look at its deductions sends: the
/// acknowledgement, and the history written into the message where the
/// message can be reached.
pub open spec fn history_callback_spec(
    db: DatabaseView,
    from_id: u64,
    query_id: Seq<char>,
    message: Option<MessageRef>,
    class_id: i64,
) -> Seq<ActionView> {
    answer_and_edit(query_id, message, history_output(db, from_id, class_id))
}

fn render_histories(rows: &Vec<ClassDeductionHistory>) -> (text: String)
    ensures
        text@ == join_lines(history_lines(history_views(rows@))),
{
    let mut lines: Vec<String> = Vec::new();
    let ghost wanted = history_lines(history_views(rows@));
    let mut i: usize = 0;
    while i < rows.len()
        invariant
            0 <= i <= rows.len(),
            wanted == history_lines(history_views(rows@)),
            texts_of(lines@) == wanted.take(i as int),
        decreases rows.len() - i,
    {
        let ghost before = lines@;
        let line = match rows[i].try_to_string() {
            Some(line) => line,
            None => rows[i].created_at.clone(),
        };
        lines.push(line);
        assert(texts_of(lines@) =~= texts_of(before).push(wanted[i as int]));
        assert(texts_of(lines@) =~= wanted.take(i + 1));
        i = i + 1;
    }
    assert(wanted.take(i as int) =~= wanted);
    join(&lines)
}

/// Handles a tap on a class offered for a look at its deductions.
pub fn list_classes_deduction_history_callback_handler(
    db: &Database,
    q: &CallbackQuery,
    class_id: i64,
) -> (actions: Vec<Action>)
    requires
        db.wf(),
    ensures
        action_views(actions@) == history_callback_spec(
            db@,
            q.from_id,
            q.id@,
            q.message,
            class_id,
        ),
{
    if q.message.is_none() {
        let mut actions: Vec<Action> = Vec::new();
        actions.push(Action::acknowledge(q.id.as_str()));
        assert(action_views(actions@) =~= seq![acknowledge(q.id@)]);
        return actions;
    }
    let output = match telegram_id(q.from_id) {
        None => ServiceError::UserNotFound(UserNotFoundError).to_string(),
        Some(telegram_user_id) => match get_class_deduction_histories(
            db,
            class_id,
            telegram_user_id,
        ) {
            Err(err) => err.to_string(),
            Ok(histories) => {
                if histories.len() == 0 {
                    "История списаний пуста".to_owned()
                } else {
                    render_histories(&histories)
                }
            },
        },
    };
    answer_then_edit(q, output)
}

} // verus!

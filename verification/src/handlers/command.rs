use crate::action::{action_views, say, say_with, Action, ActionView};
use crate::commands::{Command, MenuAction};
use crate::database::{Database, DatabaseView};
use crate::handlers::menu::{menu, menu_markup};
use crate::services::user::{add_user, add_user_spec};
use crate::state::{InMemStorage, StateView};
use crate::text::option_text;
use crate::update::Message;
use vstd::prelude::*;

verus! {

/// What `/start` does: it greets, and registers the chat as a user unless
/// it is one already. A failed registration is reported after the greeting.
pub open spec fn start_spec(db: DatabaseView, chat_id: i64, username: Option<Seq<char>>) -> (
    DatabaseView,
    Seq<ActionView>,
) {
    let name = match username {
        Some(name) => name,
        None => Seq::empty(),
    };
    let (after, added) = add_user_spec(db, chat_id, name);
    let greeting = say(chat_id, "Я бот помощник. Посмотри что я умею: /help"@);
    (
        after,
        match added {
            Ok(_) => seq![greeting],
            Err(e) => seq![greeting, say(chat_id, e.message())],
        },
    )
}

/// Handles `/start`.
pub fn start_handler(db: &mut Database, msg: &Message) -> (actions: Vec<Action>)
    requires
        old(db).wf(),
    ensures
        final(db).wf(),
        (final(db)@, action_views(actions@)) == start_spec(
            old(db)@,
            msg.chat_id,
            option_text(msg.chat_username),
        ),
{
    let mut actions: Vec<Action> = Vec::new();
    actions.push(Action::say(msg.chat_id, "Я бот помощник. Посмотри что я умею: /help".to_owned()));
    proof {
        reveal_strlit("");
        assert(""@ =~= Seq::<char>::empty());
    }
    let username = match &msg.chat_username {
        Some(name) => name.as_str(),
        None => "",
    };
    match add_user(db, msg.chat_id, username) {
        Ok(_) => {},
        Err(e) => {
            actions.push(Action::say(msg.chat_id, e.to_string()));
        },
    }
    proof {
        let wanted = start_spec(
            old(db)@,
            msg.chat_id,
            option_text(msg.chat_username),
        ).1;
        assert(action_views(actions@) =~= wanted);
    }
    actions
}

/// Handles `/help`: answers with the list of commands.
pub fn help_handler(msg: &Message) -> (actions: Vec<Action>)
    ensures
        action_views(actions@) == seq![say(msg.chat_id, Command::spec_descriptions())],
{
    let mut actions: Vec<Action> = Vec::new();
    actions.push(Action::say(msg.chat_id, Command::descriptions().to_owned()));
    assert(action_views(actions@) =~= seq![say(msg.chat_id, Command::spec_descriptions())]);
    actions
}

/// The entries of the main menu.
pub open spec fn main_menu_entries() -> Seq<MenuAction> {
    seq![MenuAction::Classes]
}

/// What opening the main menu sends.
pub open spec fn main_menu_spec(chat_id: i64) -> Seq<ActionView> {
    seq![say_with(chat_id, "Переход в главное меню"@, menu_markup(main_menu_entries()), false)]
}

/// Handles `/main_menu` and the menu entry of the same meaning: shows the
/// main menu.
pub fn main_menu_handler(msg: &Message) -> (actions: Vec<Action>)
    ensures
        action_views(actions@) == main_menu_spec(msg.chat_id),
{
    let mut entries: Vec<MenuAction> = Vec::new();
    entries.push(MenuAction::Classes);
    assert(entries@ =~= main_menu_entries());
    let mut actions: Vec<Action> = Vec::new();
    actions.push(
        Action::say_with(msg.chat_id, "Переход в главное меню".to_owned(), menu(entries), false),
    );
    assert(action_views(actions@) =~= main_menu_spec(msg.chat_id));
    actions
}

/// What cancelling says.
pub open spec fn cancel_spec(chat_id: i64) -> Seq<ActionView> {
    seq![say(chat_id, "Отмена операции"@)]
}

/// The confirmation that an operation was cancelled.
pub fn cancelled(chat_id: i64) -> (actions: Vec<Action>)
    ensures
        action_views(actions@) == cancel_spec(chat_id),
{
    let mut actions: Vec<Action> = Vec::new();
    actions.push(Action::say(chat_id, "Отмена операции".to_owned()));
    assert(action_views(actions@) =~= cancel_spec(chat_id));
    actions
}

/// Handles `/cancel_operation`: whatever the chat was in the middle of is
/// dropped, and the chat is idle again.
pub fn cancel_handler(storage: &mut InMemStorage, msg: &Message) -> (actions: Vec<Action>)
    ensures
        final(storage)@ == old(storage)@.remove(msg.chat_id),
        final(storage).current(msg.chat_id) == StateView::Idle,
        action_views(actions@) == cancel_spec(msg.chat_id),
{
    storage.remove_dialogue(msg.chat_id);
    cancelled(msg.chat_id)
}

} // verus!

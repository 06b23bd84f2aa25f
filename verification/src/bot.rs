use crate::action::{action_views, say, Action, ActionView, Transition};
use crate::commands::{Command, MenuAction};
use crate::database::{Database, DatabaseView};
use crate::handlers::class::{
    quantity_of,
    receive_name,
    receive_name_spec,
    receive_quantity,
    receive_quantity_handler,
    receive_quantity_handler_spec,
    receive_quantity_spec,
};
use crate::handlers::command::{
    cancel_handler,
    cancel_spec,
    cancelled,
    help_handler,
    main_menu_handler,
    main_menu_spec,
    start_handler,
    start_spec,
};
use crate::handlers::common::{
    callback_of,
    idle_callback_handler,
    idle_callback_spec,
    idle_message_handler,
    idle_message_spec,
    CallbackAction,
};
use crate::handlers::daily_practice_log::{minutes_of, receive_minutes, receive_minutes_spec};
use crate::state::{InMemStorage, State, StateView};
use crate::text::option_text;
use crate::update::{Message, Update};
use vstd::prelude::*;

verus! {

/// The chat whose dialogue an update belongs to.
pub open spec fn chat_of(update: Update) -> Option<i64> {
    match update {
        Update::Message(msg) => Some(msg.chat_id),
        Update::CallbackQuery(q) => q.chat_id,
        Update::Other { .. } => None,
    }
}

/// The command that a message calls, if its text is one.
pub open spec fn command_of(text: Option<Seq<char>>) -> Option<Command> {
    match text {
        Some(text) => Command::spec_parse(text),
        None => None,
    }
}

/// What a message does to a chat in the state `state`. A command is obeyed
/// whatever the state; every other message goes to the handler of the
/// state.
pub open spec fn message_spec(
    db: DatabaseView,
    state: StateView,
    chat_id: i64,
    chat_username: Option<Seq<char>>,
    text: Option<Seq<char>>,
    now: Seq<char>,
) -> (DatabaseView, (StateView, Seq<ActionView>)) {
    match command_of(text) {
        Some(Command::Start) => {
            let (after, actions) = start_spec(db, chat_id, chat_username);
            (after, (state, actions))
        },
        Some(Command::Help) => (db, (state, seq![say(chat_id, Command::spec_descriptions())])),
        Some(Command::MainMenu) => (db, (state, main_menu_spec(chat_id))),
        Some(Command::CancelOperation) => (db, (StateView::Idle, cancel_spec(chat_id))),
        None => match state {
            StateView::Idle => (db, idle_message_spec(db, chat_id, text)),
            StateView::AddingClassReceiveName => (db, receive_name_spec(chat_id, text)),
            StateView::AddingClassReceiveQuantity { name } => receive_quantity_spec(
                db,
                name,
                chat_id,
                text,
            ),
            StateView::UpdatingClassReceiveQuantity { class_id } => receive_quantity_handler_spec(
                db,
                class_id,
                chat_id,
                text,
            ),
            StateView::AddingDailyPracticeReceiveMinutes => receive_minutes_spec(
                db,
                chat_id,
                text,
                now,
            ),
        },
    }
}

/// What an update does to the store and to its chat, which is in the
/// state `state`, and the calls it asks for. Taps are heard by an idle chat
/// only; what is neither a message nor a tap is passed over.
pub open spec fn dispatch_spec(db: DatabaseView, state: StateView, update: Update, now: Seq<char>) -> (
    DatabaseView,
    (StateView, Seq<ActionView>),
) {
    match update {
        Update::Message(msg) => message_spec(
            db,
            state,
            msg.chat_id,
            option_text(msg.chat_username),
            option_text(msg.text),
            now,
        ),
        Update::CallbackQuery(q) => match state {
            StateView::Idle => idle_callback_spec(
                db,
                q.from_id,
                q.id@,
                q.message,
                option_text(q.data),
                now,
            ),
            _ => (db, (state, Seq::empty())),
        },
        Update::Other { .. } => (db, (state, Seq::empty())),
    }
}

fn nothing(state: State) -> (r: Transition)
    ensures
        r@ == (state@, Seq::<ActionView>::empty()),
{
    let actions: Vec<Action> = Vec::new();
    assert(action_views(actions@) =~= Seq::<ActionView>::empty());
    Transition { state, actions }
}

fn on_message(db: &mut Database, state: State, msg: &Message, now: &str) -> (r: Transition)
    requires
        old(db).wf(),
    ensures
        final(db).wf(),
        (final(db)@, r@) == message_spec(
            old(db)@,
            state@,
            msg.chat_id,
            option_text(msg.chat_username),
            option_text(msg.text),
            now@,
        ),
{
    let command = match &msg.text {
        Some(text) => Command::parse(text.as_str()),
        None => None,
    };
    match command {
        Some(Command::Start) => Transition { state, actions: start_handler(db, msg) },
        Some(Command::Help) => Transition { state, actions: help_handler(msg) },
        Some(Command::MainMenu) => Transition { state, actions: main_menu_handler(msg) },
        Some(Command::CancelOperation) => Transition {
            state: State::Idle,
            actions: cancelled(msg.chat_id),
        },
        None => match state {
            State::Idle => idle_message_handler(db, msg),
            State::AddingClassReceiveName => receive_name(msg),
            State::AddingClassReceiveQuantity { name } => receive_quantity(db, name, msg),
            State::UpdatingClassReceiveQuantity { class_id } => receive_quantity_handler(
                db,
                msg,
                class_id,
            ),
            State::AddingDailyPracticeReceiveMinutes => receive_minutes(db, msg, now),
        },
    }
}

/// Hands an update to the one handler that is due for it, threads the
/// state of its chat through, and returns the calls to make; `now` is the
/// moment to note on what the update records. An update without a chat is
/// passed over.
pub fn dispatch(db: &mut Database, storage: &mut InMemStorage, update: &Update, now: &str) -> (actions:
    Vec<Action>)
    requires
        old(db).wf(),
    ensures
        final(db).wf(),
        match chat_of(*update) {
            None => {
                &&& final(db)@ == old(db)@
                &&& final(storage)@ == old(storage)@
                &&& action_views(actions@) == Seq::<ActionView>::empty()
            },
            Some(chat_id) => {
                let (after, (state, wanted)) = dispatch_spec(
                    old(db)@,
                    old(storage).current(chat_id),
                    *update,
                    now@,
                );
                &&& final(db)@ == after
                &&& final(storage).current(chat_id) == state
                &&& forall|other: i64|
                    other != chat_id ==> final(storage).current(other) == old(storage).current(
                        other,
                    )
                &&& action_views(actions@) == wanted
            },
        },
{
    let chat_id = match update {
        Update::Message(msg) => {
            let command = match &msg.text {
                Some(text) => Command::parse(text.as_str()),
                None => None,
            };
            match command {
                Some(Command::CancelOperation) => {
                    return cancel_handler(storage, msg);
                },
                _ => {},
            }
            msg.chat_id
        },
        Update::CallbackQuery(q) => match q.chat_id {
            Some(chat_id) => chat_id,
            None => {
                return nothing(State::Idle).actions;
            },
        },
        Update::Other { .. } => {
            return nothing(State::Idle).actions;
        },
    };
    let state = storage.get_dialogue(chat_id);
    let transition = match update {
        Update::Message(msg) => on_message(db, state, msg, now),
        Update::CallbackQuery(q) => match state {
            State::Idle => idle_callback_handler(db, q, now),
            _ => nothing(state),
        },
        Update::Other { .. } => nothing(state),
    };
    let Transition { state: next, actions } = transition;
    match next {
        State::Idle => {
            storage.remove_dialogue(chat_id);
        },
        _ => {
            storage.update_dialogue(chat_id, next);
        },
    }
    actions
}

/// An update as the state machine sees it.
pub enum Trigger {
    /// A message whose text is a command.
    Command(Command),
    /// A message with any other text.
    Text(Seq<char>),
    /// A message without text.
    Attachment,
    /// A tap on an inline button, with its payload.
    Tap(Option<Seq<char>>),
    /// Anything else.
    Other,
}

/// How the state machine sees an update.
pub open spec fn trigger_of(update: Update) -> Trigger {
    match update {
        Update::Message(msg) => match option_text(msg.text) {
            None => Trigger::Attachment,
            Some(text) => match Command::spec_parse(text) {
                Some(command) => Trigger::Command(command),
                None => Trigger::Text(text),
            },
        },
        Update::CallbackQuery(q) => Trigger::Tap(option_text(q.data)),
        Update::Other { .. } => Trigger::Other,
    }
}

/// The table of the dialogue: the state that follows `state` on `trigger`.
/// What the store holds has no say in it.
pub open spec fn next_state(state: StateView, trigger: Trigger) -> StateView {
    match trigger {
        Trigger::Command(Command::CancelOperation) => StateView::Idle,
        Trigger::Command(_) => state,
        Trigger::Other => state,
        Trigger::Attachment => state,
        Trigger::Tap(data) => match state {
            StateView::Idle => match data {
                Some(data) => match callback_of(data) {
                    Some((CallbackAction::UpdateQuantity, class_id)) => {
                        StateView::UpdatingClassReceiveQuantity { class_id }
                    },
                    _ => StateView::Idle,
                },
                None => StateView::Idle,
            },
            _ => state,
        },
        Trigger::Text(text) => match state {
            StateView::Idle => match MenuAction::spec_parse(text) {
                Some(MenuAction::AddClass) => StateView::AddingClassReceiveName,
                Some(MenuAction::AddDailyPracticeEntry) => {
                    StateView::AddingDailyPracticeReceiveMinutes
                },
                _ => StateView::Idle,
            },
            StateView::AddingClassReceiveName => StateView::AddingClassReceiveQuantity {
                name: text,
            },
            StateView::AddingClassReceiveQuantity { name } => if quantity_of(Some(text)) is Some {
                StateView::Idle
            } else {
                state
            },
            StateView::UpdatingClassReceiveQuantity { class_id } => if quantity_of(
                Some(text),
            ) is Some {
                StateView::Idle
            } else {
                state
            },
            StateView::AddingDailyPracticeReceiveMinutes => if minutes_of(Some(text)) is Some {
                StateView::Idle
            } else {
                state
            },
        },
    }
}

/// Whatever the store holds and whatever a handler finds there, the state
/// that an update leaves its chat in is the one that the table gives.
pub proof fn lemma_dispatch_follows_table(
    db: DatabaseView,
    state: StateView,
    update: Update,
    now: Seq<char>,
)
    ensures
        dispatch_spec(db, state, update, now).1.0 == next_state(state, trigger_of(update)),
{
}

/// The table has no other moves than these: a chat stays where it is, goes
/// back to idle, or takes one of the four steps that begin or continue an
/// exchange, each on its own trigger. A wrong number never ends an
/// exchange, and the cancel command always does.
pub proof fn lemma_transitions_listed(state: StateView, trigger: Trigger)
    ensures
        ({
            let next = next_state(state, trigger);
            ||| next == state
            ||| next == StateView::Idle
            ||| state == StateView::Idle && next == StateView::AddingClassReceiveName
                && trigger == Trigger::Text(MenuAction::AddClass.spec_label())
            ||| state == StateView::Idle && next == StateView::AddingDailyPracticeReceiveMinutes
                && trigger == Trigger::Text(MenuAction::AddDailyPracticeEntry.spec_label())
            ||| state == StateView::AddingClassReceiveName && trigger is Text && next == (
            StateView::AddingClassReceiveQuantity { name: trigger->Text_0 })
            ||| state == StateView::Idle && trigger is Tap && trigger->Tap_0 is Some && next
                is UpdatingClassReceiveQuantity && callback_of(trigger->Tap_0.unwrap()) == Some(
                (CallbackAction::UpdateQuantity, next->class_id),
            )
        }),
        trigger == Trigger::Command(Command::CancelOperation) ==> next_state(state, trigger)
            == StateView::Idle,
        trigger is Text && state is AddingClassReceiveQuantity && quantity_of(
            Some(trigger->Text_0),
        ) is None ==> next_state(state, trigger) == state,
        trigger is Text && state is UpdatingClassReceiveQuantity && quantity_of(
            Some(trigger->Text_0),
        ) is None ==> next_state(state, trigger) == state,
        trigger is Text && state is AddingDailyPracticeReceiveMinutes && minutes_of(
            Some(trigger->Text_0),
        ) is None ==> next_state(state, trigger) == state,
{
    if let Trigger::Text(text) = trigger {
        if state == StateView::Idle {
            match MenuAction::spec_parse(text) {
                Some(MenuAction::AddClass) => {
                    MenuAction::AddClass.lemma_label_parsed(text);
                },
                Some(MenuAction::AddDailyPracticeEntry) => {
                    MenuAction::AddDailyPracticeEntry.lemma_label_parsed(text);
                },
                _ => {},
            }
        }
    }
}

} // verus!

use crate::keyboards::{InlineKeyboardButtonView, InlineKeyboardMarkup, KeyboardMarkup};
use crate::state::{State, StateView};
use vstd::prelude::*;

verus! {

/// To whom a message goes.
#[derive(Clone, Copy, Debug, PartialEq, Eq, Structural)]
pub enum Recipient {
    Chat(i64),
    User(u64),
}

/// The keyboard that goes with a message.
#[derive(Debug, PartialEq, Eq)]
pub enum ReplyMarkup {
    Keyboard(KeyboardMarkup),
    InlineKeyboard(InlineKeyboardMarkup),
}

/// Mathematical value of a keyboard.
pub enum ReplyMarkupView {
    Keyboard { rows: Seq<Seq<Seq<char>>>, is_persistent: bool },
    InlineKeyboard { buttons: Seq<Seq<InlineKeyboardButtonView>> },
}

impl View for ReplyMarkup {
    type V = ReplyMarkupView;

    open spec fn view(&self) -> ReplyMarkupView {
        match self {
            ReplyMarkup::Keyboard(k) => ReplyMarkupView::Keyboard {
                rows: k@,
                is_persistent: k.is_persistent,
            },
            ReplyMarkup::InlineKeyboard(k) => ReplyMarkupView::InlineKeyboard { buttons: k@ },
        }
    }
}

/// One call that the bot is to make to the platform.
#[derive(Debug, PartialEq, Eq)]
pub enum Action {
    /// Send `text`, with a keyboard or without, as plain text or as HTML.
    SendMessage { to: Recipient, text: String, reply_markup: Option<ReplyMarkup>, html: bool },
    /// Acknowledge a tap, which stops the spinner on the button; with a
    /// text, shown as an alert or as a notice.
    AnswerCallbackQuery { callback_query_id: String, notice: Option<String>, show_alert: bool },
    /// Replace the text of a message.
    EditMessageText { chat_id: i64, message_id: i32, text: String },
    /// Send the practice history: the total of the minutes, to be shown in
    /// hours, and below it the entries.
    SendPracticeSummary { chat_id: i64, total_minutes: u128, entries: String },
}

/// Mathematical value of an action.
pub enum ActionView {
    SendMessage {
        to: Recipient,
        text: Seq<char>,
        reply_markup: Option<ReplyMarkupView>,
        html: bool,
    },
    AnswerCallbackQuery {
        callback_query_id: Seq<char>,
        notice: Option<Seq<char>>,
        show_alert: bool,
    },
    EditMessageText { chat_id: i64, message_id: i32, text: Seq<char> },
    SendPracticeSummary { chat_id: i64, total_minutes: u128, entries: Seq<char> },
}

impl View for Action {
    type V = ActionView;

    open spec fn view(&self) -> ActionView {
        match self {
            Action::SendMessage { to, text, reply_markup, html } => ActionView::SendMessage {
                to: *to,
                text: text@,
                reply_markup: match reply_markup {
                    Some(markup) => Some(markup@),
                    None => None,
                },
                html: *html,
            },
            Action::AnswerCallbackQuery {
                callback_query_id,
                notice,
                show_alert,
            } => ActionView::AnswerCallbackQuery {
                callback_query_id: callback_query_id@,
                notice: match notice {
                    Some(notice) => Some(notice@),
                    None => None,
                },
                show_alert: *show_alert,
            },
            Action::EditMessageText { chat_id, message_id, text } => ActionView::EditMessageText {
                chat_id: *chat_id,
                message_id: *message_id,
                text: text@,
            },
            Action::SendPracticeSummary {
                chat_id,
                total_minutes,
                entries,
            } => ActionView::SendPracticeSummary {
                chat_id: *chat_id,
                total_minutes: *total_minutes,
                entries: entries@,
            },
        }
    }
}

/// The values of a list of actions.
pub open spec fn action_views(actions: Seq<Action>) -> Seq<ActionView> {
    actions.map_values(|a: Action| a@)
}

/// A plain message to a chat.
pub open spec fn say(chat_id: i64, text: Seq<char>) -> ActionView {
    ActionView::SendMessage { to: Recipient::Chat(chat_id), text, reply_markup: None, html: false }
}

/// An HTML message to a chat.
pub open spec fn say_html(chat_id: i64, text: Seq<char>) -> ActionView {
    ActionView::SendMessage { to: Recipient::Chat(chat_id), text, reply_markup: None, html: true }
}

/// A message to a chat with a keyboard.
pub open spec fn say_with(
    chat_id: i64,
    text: Seq<char>,
    markup: ReplyMarkupView,
    html: bool,
) -> ActionView {
    ActionView::SendMessage {
        to: Recipient::Chat(chat_id),
        text,
        reply_markup: Some(markup),
        html,
    }
}

/// The bare acknowledgement of a tap.
pub open spec fn acknowledge(callback_query_id: Seq<char>) -> ActionView {
    ActionView::AnswerCallbackQuery { callback_query_id, notice: None, show_alert: false }
}

/// A new text for a message.
pub open spec fn edit(at: crate::update::MessageRef, text: Seq<char>) -> ActionView {
    ActionView::EditMessageText { chat_id: at.chat_id, message_id: at.message_id, text }
}

impl Action {
    /// A plain message to a chat.
    pub fn say(chat_id: i64, text: String) -> (a: Action)
        ensures
            a@ == say(chat_id, text@),
    {
        Action::SendMessage { to: Recipient::Chat(chat_id), text, reply_markup: None, html: false }
    }

    /// An HTML message to a chat.
    pub fn say_html(chat_id: i64, text: String) -> (a: Action)
        ensures
            a@ == say_html(chat_id, text@),
    {
        Action::SendMessage { to: Recipient::Chat(chat_id), text, reply_markup: None, html: true }
    }

    /// A message to a chat with a keyboard.
    pub fn say_with(chat_id: i64, text: String, markup: ReplyMarkup, html: bool) -> (a: Action)
        ensures
            a@ == say_with(chat_id, text@, markup@, html),
    {
        Action::SendMessage {
            to: Recipient::Chat(chat_id),
            text,
            reply_markup: Some(markup),
            html,
        }
    }

    /// The bare acknowledgement of a tap.
    pub fn acknowledge(callback_query_id: &str) -> (a: Action)
        ensures
            a@ == acknowledge(callback_query_id@),
    {
        Action::AnswerCallbackQuery {
            callback_query_id: callback_query_id.to_owned(),
            notice: None,
            show_alert: false,
        }
    }

    /// A new text for a message.
    pub fn edit(at: crate::update::MessageRef, text: String) -> (a: Action)
        ensures
            a@ == edit(at, text@),
    {
        Action::EditMessageText { chat_id: at.chat_id, message_id: at.message_id, text }
    }
}

/// Parts a list of actions into the acknowledgements of taps that it
/// begins with and the actions after them. The first are due at once, so
/// that the button stops spinning; the second may wait until what the
/// update did to the store has been written.
pub fn split_acknowledgements(actions: Vec<Action>) -> (r: (Vec<Action>, Vec<Action>))
    ensures
        r.0@ + r.1@ == actions@,
        forall|i: int| 0 <= i < r.0@.len() ==> (#[trigger] r.0@[i]) is AnswerCallbackQuery,
        r.1@.len() > 0 ==> !(r.1@[0] is AnswerCallbackQuery),
{
    let mut first: Vec<Action> = Vec::new();
    let mut rest: Vec<Action> = Vec::new();
    let ghost all = actions@;
    for action in it: actions
        invariant
            it.seq() == all,
            first@ + rest@ == all.take(it.index() as int),
            forall|i: int| 0 <= i < first@.len() ==> (#[trigger] first@[i]) is AnswerCallbackQuery,
            rest@.len() > 0 ==> !(rest@[0] is AnswerCallbackQuery),
    {
        let ghost before_first = first@;
        let ghost before_rest = rest@;
        let leading = rest.len() == 0 && match &action {
            Action::AnswerCallbackQuery { .. } => true,
            _ => false,
        };
        if leading {
            first.push(action);
            assert(first@ + rest@ =~= (before_first + before_rest).push(action));
        } else {
            rest.push(action);
            assert(first@ + rest@ =~= (before_first + before_rest).push(action));
        }
        assert(all.take(it.index() + 1) =~= all.take(it.index() as int).push(action));
    }
    assert(all.take(all.len() as int) =~= all);
    (first, rest)
}

/// What a handler of the dialogue leaves behind: the state that the chat
/// is in from now on, and the calls to make.
#[derive(Debug, PartialEq, Eq)]
pub struct Transition {
    pub state: State,
    pub actions: Vec<Action>,
}

impl View for Transition {
    type V = (StateView, Seq<ActionView>);

    open spec fn view(&self) -> (StateView, Seq<ActionView>) {
        (self.state@, action_views(self.actions@))
    }
}

} // verus!

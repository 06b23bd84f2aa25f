use std::collections::HashMap;
use vstd::prelude::*;

verus! {

/// Position of one chat in the multi-turn conversation.
#[derive(Debug, PartialEq, Eq)]
pub enum State {
    /// Waiting for any message or callback.
    Idle,
    /// Waiting for the name of a class to add.
    AddingClassReceiveName,
    /// The name is known; waiting for the quantity.
    AddingClassReceiveQuantity { name: String },
    /// The class was chosen by a callback; waiting for the new quantity.
    UpdatingClassReceiveQuantity { class_id: i64 },
    /// Waiting for the minutes of a daily practice entry.
    AddingDailyPracticeReceiveMinutes,
}

/// Mathematical value of a dialogue state.
pub enum StateView {
    Idle,
    AddingClassReceiveName,
    AddingClassReceiveQuantity { name: Seq<char> },
    UpdatingClassReceiveQuantity { class_id: i64 },
    AddingDailyPracticeReceiveMinutes,
}

impl View for State {
    type V = StateView;

    open spec fn view(&self) -> StateView {
        match *self {
            State::Idle => StateView::Idle,
            State::AddingClassReceiveName => StateView::AddingClassReceiveName,
            State::AddingClassReceiveQuantity { name } => StateView::AddingClassReceiveQuantity {
                name: name@,
            },
            State::UpdatingClassReceiveQuantity { class_id } => {
                StateView::UpdatingClassReceiveQuantity { class_id }
            },
            State::AddingDailyPracticeReceiveMinutes => StateView::AddingDailyPracticeReceiveMinutes,
        }
    }
}

impl Clone for State {
    fn clone(&self) -> (r: Self)
        ensures
            r == *self,
    {
        match self {
            State::Idle => State::Idle,
            State::AddingClassReceiveName => State::AddingClassReceiveName,
            State::AddingClassReceiveQuantity { name } => State::AddingClassReceiveQuantity {
                name: name.clone(),
            },
            State::UpdatingClassReceiveQuantity { class_id } => {
                State::UpdatingClassReceiveQuantity { class_id: *class_id }
            },
            State::AddingDailyPracticeReceiveMinutes => State::AddingDailyPracticeReceiveMinutes,
        }
    }
}

impl Default for State {
    fn default() -> (s: State)
        ensures
            s@ == StateView::Idle,
    {
        State::Idle
    }
}

/// The dialogue states of all chats, kept in memory. A chat without an
/// entry is idle.
pub struct InMemStorage {
    dialogues: HashMap<i64, State>,
}

impl View for InMemStorage {
    type V = Map<i64, StateView>;

    /// The chats that have an entry, each with its state.
    closed spec fn view(&self) -> Map<i64, StateView> {
        self.dialogues@.map_values(|s: State| s@)
    }
}

impl InMemStorage {
    /// The state of `chat_id`.
    pub open spec fn current(&self, chat_id: i64) -> StateView {
        if self@.contains_key(chat_id) {
            self@[chat_id]
        } else {
            StateView::Idle
        }
    }

    /// A store in which every chat is idle.
    pub fn new() -> (r: Self)
        ensures
            r@ == Map::<i64, StateView>::empty(),
    {
        let r = InMemStorage { dialogues: HashMap::new() };
        assert(r@ =~= Map::<i64, StateView>::empty());
        r
    }

    /// The state of `chat_id`: what was stored last, or idle.
    pub fn get_dialogue(&self, chat_id: i64) -> (state: State)
        ensures
            state@ == self.current(chat_id),
    {
        broadcast use vstd::std_specs::hash::group_hash_axioms;

        match self.dialogues.get(&chat_id) {
            Some(state) => state.clone(),
            None => State::Idle,
        }
    }

    /// Stores `state` as the state of `chat_id`.
    pub fn update_dialogue(&mut self, chat_id: i64, state: State)
        ensures
            final(self)@ == old(self)@.insert(chat_id, state@),
    {
        broadcast use vstd::std_specs::hash::group_hash_axioms;

        self.dialogues.insert(chat_id, state);
        assert(self@ =~= old(self)@.insert(chat_id, state@));
    }

    /// Forgets the state of `chat_id`, which makes the chat idle.
    pub fn remove_dialogue(&mut self, chat_id: i64)
        ensures
            final(self)@ == old(self)@.remove(chat_id),
            final(self).current(chat_id) == StateView::Idle,
    {
        broadcast use vstd::std_specs::hash::group_hash_axioms;

        self.dialogues.remove(&chat_id);
        assert(self@ =~= old(self)@.remove(chat_id));
    }
}

} // verus!

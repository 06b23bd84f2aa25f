use crate::database::{Database, DatabaseView};
use crate::repositories::class::ClassRepository;
use crate::repositories::class_deduction_history::ClassDeductionHistoryRepository;
use crate::repositories::daily_practice_log::DailyPracticeLogRepository;
use crate::repositories::user::UserRepository;
use vstd::prelude::*;

verus! {

enum UowContext<'a> {
    ReadOnly { db: &'a Database },
    Transactional { working: Database },
}

/// A bracket around one logical operation on the store. A read-only unit
/// looks at the store itself; a transactional unit works on its own copy,
/// which reaches the store only by `commit`.
pub struct UnitOfWork<'a> {
    context: UowContext<'a>,
}

impl<'a> View for UnitOfWork<'a> {
    type V = DatabaseView;

    /// The store as the repositories of this unit see it.
    closed spec fn view(&self) -> DatabaseView {
        match self.context {
            UowContext::ReadOnly { db } => db@,
            UowContext::Transactional { working } => working@,
        }
    }
}

impl<'a> UnitOfWork<'a> {
    /// Whether the unit runs a transaction.
    pub closed spec fn is_transactional(&self) -> bool {
        self.context is Transactional
    }

    /// A unit that only reads `db`.
    pub fn new_readonly(db: &'a Database) -> (r: Self)
        ensures
            r@ == db@,
            !r.is_transactional(),
    {
        UnitOfWork { context: UowContext::ReadOnly { db } }
    }

    /// Begins a transaction on `db`.
    pub fn new_transactional(db: &Database) -> (r: Self)
        ensures
            r@ == db@,
            r.is_transactional(),
    {
        UnitOfWork { context: UowContext::Transactional { working: db.snapshot() } }
    }

    /// Ends the unit. A transaction's work becomes the content of `db`; a
    /// read-only unit leaves `db` as it is.
    pub fn commit(self, db: &mut Database)
        ensures
            self.is_transactional() ==> final(db)@ == self@,
            !self.is_transactional() ==> final(db)@ == old(db)@,
    {
        match self.context {
            UowContext::ReadOnly { db: _ } => {},
            UowContext::Transactional { working } => {
                *db = working;
            },
        }
    }

    /// The `user` table, for reading.
    pub fn user_repo(&self) -> (r: &UserRepository)
        ensures
            r@ == self@.users,
    {
        match &self.context {
            UowContext::ReadOnly { db } => &db.users,
            UowContext::Transactional { working } => &working.users,
        }
    }

    /// The `user` table of a transaction, for writing.
    pub fn user_repo_mut(&mut self) -> (r: &mut UserRepository)
        requires
            old(self).is_transactional(),
        ensures
            r@ == old(self)@.users,
            final(self).is_transactional(),
            final(self)@ == (DatabaseView { users: final(r)@, ..old(self)@ }),
    {
        match &mut self.context {
            UowContext::Transactional { working } => &mut working.users,
            UowContext::ReadOnly { db: _ } => vstd::pervasive::unreached(),
        }
    }

    /// The `class` table, for reading.
    pub fn class_repo(&self) -> (r: &ClassRepository)
        ensures
            r@ == self@.classes,
    {
        match &self.context {
            UowContext::ReadOnly { db } => &db.classes,
            UowContext::Transactional { working } => &working.classes,
        }
    }

    /// The `class` table of a transaction, for writing.
    pub fn class_repo_mut(&mut self) -> (r: &mut ClassRepository)
        requires
            old(self).is_transactional(),
        ensures
            r@ == old(self)@.classes,
            final(self).is_transactional(),
            final(self)@ == (DatabaseView { classes: final(r)@, ..old(self)@ }),
    {
        match &mut self.context {
            UowContext::Transactional { working } => &mut working.classes,
            UowContext::ReadOnly { db: _ } => vstd::pervasive::unreached(),
        }
    }

    /// The `class_deduction_history` table, for reading.
    pub fn class_deduction_history_repo(&self) -> (r: &ClassDeductionHistoryRepository)
        ensures
            r@ == self@.class_deduction_histories,
    {
        match &self.context {
            UowContext::ReadOnly { db } => &db.class_deduction_histories,
            UowContext::Transactional { working } => &working.class_deduction_histories,
        }
    }

    /// The `class_deduction_history` table of a transaction, for writing.
    pub fn class_deduction_history_repo_mut(&mut self) -> (r: &mut ClassDeductionHistoryRepository)
        requires
            old(self).is_transactional(),
        ensures
            r@ == old(self)@.class_deduction_histories,
            final(self).is_transactional(),
            final(self)@ == (DatabaseView { class_deduction_histories: final(r)@, ..old(self)@ }),
    {
        match &mut self.context {
            UowContext::Transactional { working } => &mut working.class_deduction_histories,
            UowContext::ReadOnly { db: _ } => vstd::pervasive::unreached(),
        }
    }

    /// The `daily_practice_log` table, for reading.
    pub fn daily_practice_log_repo(&self) -> (r: &DailyPracticeLogRepository)
        ensures
            r@ == self@.daily_practice_logs,
    {
        match &self.context {
            UowContext::ReadOnly { db } => &db.daily_practice_logs,
            UowContext::Transactional { working } => &working.daily_practice_logs,
        }
    }

    /// The `daily_practice_log` table of a transaction, for writing.
    pub fn daily_practice_log_repo_mut(&mut self) -> (r: &mut DailyPracticeLogRepository)
        requires
            old(self).is_transactional(),
        ensures
            r@ == old(self)@.daily_practice_logs,
            final(self).is_transactional(),
            final(self)@ == (DatabaseView { daily_practice_logs: final(r)@, ..old(self)@ }),
    {
        match &mut self.context {
            UowContext::Transactional { working } => &mut working.daily_practice_logs,
            UowContext::ReadOnly { db: _ } => vstd::pervasive::unreached(),
        }
    }
}

} // verus!

use crate::repositories::class::{ClassRepository, ClassTable};
use crate::repositories::class_deduction_history::{
    ClassDeductionHistoryRepository,
    ClassDeductionHistoryTable,
};
use crate::repositories::daily_practice_log::{DailyPracticeLogRepository, DailyPracticeLogTable};
use crate::repositories::user::{UserRepository, UserTable};
use vstd::prelude::*;

verus! {

/// The persistent store: four tables, reached only through their
/// repositories.
pub struct Database {
    pub users: UserRepository,
    pub classes: ClassRepository,
    pub class_deduction_histories: ClassDeductionHistoryRepository,
    pub daily_practice_logs: DailyPracticeLogRepository,
}

/// Mathematical value of the store.
pub struct DatabaseView {
    pub users: UserTable,
    pub classes: ClassTable,
    pub class_deduction_histories: ClassDeductionHistoryTable,
    pub daily_practice_logs: DailyPracticeLogTable,
}

impl DatabaseView {
    /// The store before anything was written: four tables without rows,
    /// whose first identifiers will be 1.
    pub open spec fn empty() -> DatabaseView {
        DatabaseView {
            users: UserTable { rows: Seq::empty(), next_id: 1 },
            classes: ClassTable { rows: Seq::empty(), next_id: 1 },
            class_deduction_histories: ClassDeductionHistoryTable {
                rows: Seq::empty(),
                next_id: 1,
            },
            daily_practice_logs: DailyPracticeLogTable { rows: Seq::empty() },
        }
    }

    /// Every table keeps its rules.
    pub open spec fn wf(self) -> bool {
        &&& self.users.wf()
        &&& self.classes.wf()
        &&& self.class_deduction_histories.wf()
        &&& self.daily_practice_logs.wf()
    }
}

impl View for Database {
    type V = DatabaseView;

    open spec fn view(&self) -> DatabaseView {
        DatabaseView {
            users: self.users@,
            classes: self.classes@,
            class_deduction_histories: self.class_deduction_histories@,
            daily_practice_logs: self.daily_practice_logs@,
        }
    }
}

impl Database {
    /// Whether every table keeps its rules.
    pub open spec fn wf(&self) -> bool {
        self@.wf()
    }

    /// A store with four empty tables.
    pub fn new() -> (r: Self)
        ensures
            r.wf(),
            r@ == DatabaseView::empty(),
    {
        Database {
            users: UserRepository::new(),
            classes: ClassRepository::new(),
            class_deduction_histories: ClassDeductionHistoryRepository::new(),
            daily_practice_logs: DailyPracticeLogRepository::new(),
        }
    }

    /// A copy of the store as it stands.
    pub fn snapshot(&self) -> (r: Self)
        ensures
            r@ == self@,
    {
        Database {
            users: self.users.snapshot(),
            classes: self.classes.snapshot(),
            class_deduction_histories: self.class_deduction_histories.snapshot(),
            daily_practice_logs: self.daily_practice_logs.snapshot(),
        }
    }
}

} // verus!

use crate::datetime::{
    calendar_weekday,
    format_timestamp,
    formatted_timestamp,
    parse_timestamp,
    parsed_timestamp,
    weekday_of,
    Timestamp,
};
use crate::repositories::storage::StorageError;
use crate::utils::{get_russian_weekday_name, russian_weekday_name, Weekday};
use vstd::prelude::*;

verus! {

/// One deduction of one class.
#[derive(Debug, PartialEq, Eq)]
pub struct ClassDeductionHistory {
    pub created_at: String,
    pub class_deduction_history_id: i64,
    pub class_id: i64,
    pub user_id: i64,
}

/// Mathematical value of a deduction row.
pub struct ClassDeductionHistoryView {
    pub created_at: Seq<char>,
    pub class_deduction_history_id: i64,
    pub class_id: i64,
    pub user_id: i64,
}

impl View for ClassDeductionHistory {
    type V = ClassDeductionHistoryView;

    open spec fn view(&self) -> ClassDeductionHistoryView {
        ClassDeductionHistoryView {
            created_at: self.created_at@,
            class_deduction_history_id: self.class_deduction_history_id,
            class_id: self.class_id,
            user_id: self.user_id,
        }
    }
}

/// One line of a deduction history: the date and time, then the short name
/// of the day in parentheses.
pub open spec fn history_line(date: Seq<char>, weekday: Weekday) -> Seq<char> {
    date + " ("@ + russian_weekday_name(weekday, true) + ")"@
}

/// Writes one line of a deduction history from the date as it is to be
/// shown and the day of the week.
pub fn render_history_line(date: &str, weekday: Weekday) -> (line: String)
    ensures
        line@ == history_line(date@, weekday),
{
    let mut line = date.to_owned();
    line.append(" (");
    line.append(get_russian_weekday_name(weekday, true));
    line.append(")");
    line
}

impl ClassDeductionHistoryView {
    /// The moment of the deduction, where `created_at` is a date and time
    /// as the store writes them.
    pub open spec fn moment(self) -> Option<Timestamp> {
        parsed_timestamp(self.created_at, "%Y-%m-%d %H:%M:%S"@)
    }

    /// Whether the row can be shown: `created_at` is read as a moment of
    /// the calendar.
    pub open spec fn renders(self) -> bool {
        match self.moment() {
            Some(at) => formatted_timestamp(at, "%d.%m.%Y %H:%M"@) is Some && calendar_weekday(
                at.year,
                at.month,
                at.day,
            ) is Some,
            None => false,
        }
    }

    /// How the row is shown: day, month, year, hour and minute, then the
    /// short name of the day.
    pub open spec fn rendered(self) -> Seq<char>
        recommends
            self.renders(),
    {
        let at = self.moment().unwrap();
        history_line(
            formatted_timestamp(at, "%d.%m.%Y %H:%M"@).unwrap(),
            calendar_weekday(at.year, at.month, at.day).unwrap(),
        )
    }
}

impl ClassDeductionHistory {
    /// How the row is shown. The row must be one that can be shown.
    pub fn to_string(&self) -> (text: String)
        requires
            self@.renders(),
        ensures
            text@ == self@.rendered(),
    {
        match parse_timestamp(self.created_at.as_str(), "%Y-%m-%d %H:%M:%S") {
            Some(at) => match format_timestamp(&at, "%d.%m.%Y %H:%M") {
                Some(date) => match weekday_of(at.year, at.month, at.day) {
                    Some(weekday) => render_history_line(date.as_str(), weekday),
                    None => vstd::pervasive::unreached(),
                },
                None => vstd::pervasive::unreached(),
            },
            None => vstd::pervasive::unreached(),
        }
    }

    /// How the row is shown, or `None` where `created_at` is no moment of
    /// the calendar.
    pub fn try_to_string(&self) -> (r: Option<String>)
        ensures
            r is Some == self@.renders(),
            r matches Some(text) ==> text@ == self@.rendered(),
    {
        match parse_timestamp(self.created_at.as_str(), "%Y-%m-%d %H:%M:%S") {
            Some(at) => {
                if format_timestamp(&at, "%d.%m.%Y %H:%M").is_some() && weekday_of(
                    at.year,
                    at.month,
                    at.day,
                ).is_some() {
                    Some(self.to_string())
                } else {
                    None
                }
            },
            None => None,
        }
    }
}

impl Clone for ClassDeductionHistory {
    fn clone(&self) -> (r: Self)
        ensures
            r == *self,
    {
        ClassDeductionHistory {
            created_at: self.created_at.clone(),
            class_deduction_history_id: self.class_deduction_history_id,
            class_id: self.class_id,
            user_id: self.user_id,
        }
    }
}

/// The values of a list of deduction rows.
pub open spec fn history_views(rows: Seq<ClassDeductionHistory>) -> Seq<
    ClassDeductionHistoryView,
> {
    rows.map_values(|h: ClassDeductionHistory| h@)
}

/// Mathematical value of the `class_deduction_history` table: its rows in
/// insertion order and the identifier that the next row will get.
pub struct ClassDeductionHistoryTable {
    pub rows: Seq<ClassDeductionHistoryView>,
    pub next_id: int,
}

impl ClassDeductionHistoryTable {
    /// Identifiers are positive, grow with insertion and stay below the
    /// next one.
    pub open spec fn wf(self) -> bool {
        &&& 1 <= self.next_id <= i64::MAX
        &&& forall|i: int|
            0 <= i < self.rows.len() ==> 1 <= (
            #[trigger] self.rows[i]).class_deduction_history_id < self.next_id
        &&& forall|i: int, j: int|
            0 <= i < j < self.rows.len() ==> (
            #[trigger] self.rows[i]).class_deduction_history_id < (
            #[trigger] self.rows[j]).class_deduction_history_id
    }

    /// The deductions of the class `class_id` made by `user_id`, in
    /// insertion order.
    pub open spec fn of_class(self, class_id: i64, user_id: i64) -> Seq<
        ClassDeductionHistoryView,
    > {
        self.rows.filter(
            |h: ClassDeductionHistoryView| h.user_id == user_id && h.class_id == class_id,
        )
    }

    /// The table after one more row.
    pub open spec fn inserted(
        self,
        class_id: i64,
        user_id: i64,
        created_at: Seq<char>,
    ) -> ClassDeductionHistoryTable {
        ClassDeductionHistoryTable {
            rows: self.rows.push(
                ClassDeductionHistoryView {
                    created_at,
                    class_deduction_history_id: self.next_id as i64,
                    class_id,
                    user_id,
                },
            ),
            next_id: self.next_id + 1,
        }
    }
}

/// The table that holds `rows`, with the next identifier after the last.
pub open spec fn loaded_histories(rows: Seq<ClassDeductionHistoryView>) -> ClassDeductionHistoryTable {
    ClassDeductionHistoryTable {
        rows,
        next_id: if rows.len() == 0 {
            1
        } else {
            rows.last().class_deduction_history_id + 1
        },
    }
}

proof fn lemma_rising(rows: Seq<ClassDeductionHistoryView>)
    requires
        forall|a: int|
            0 <= a < rows.len() - 1 ==> (#[trigger] rows[a]).class_deduction_history_id < rows[a
                + 1].class_deduction_history_id,
    ensures
        forall|a: int, b: int|
            0 <= a < b < rows.len() ==> (#[trigger] rows[a]).class_deduction_history_id < (
            #[trigger] rows[b]).class_deduction_history_id,
    decreases rows.len(),
{
    if rows.len() > 1 {
        let rest = rows.drop_last();
        assert forall|a: int| 0 <= a < rest.len() - 1 implies (
        #[trigger] rest[a]).class_deduction_history_id < rest[a + 1].class_deduction_history_id by {
            assert(rows[a].class_deduction_history_id < rows[a + 1].class_deduction_history_id);
        }
        lemma_rising(rest);
        let last = rows.len() - 1;
        assert forall|a: int, b: int| 0 <= a < b < rows.len() implies (
        #[trigger] rows[a]).class_deduction_history_id < (
        #[trigger] rows[b]).class_deduction_history_id by {
            if b < last {
                assert(rest[a].class_deduction_history_id < rest[b].class_deduction_history_id);
            } else if a < last - 1 {
                assert(rest[a].class_deduction_history_id < rest[last
                    - 1].class_deduction_history_id);
                assert(rows[last - 1].class_deduction_history_id
                    < rows[last].class_deduction_history_id);
            } else {
                assert(rows[last - 1].class_deduction_history_id
                    < rows[last].class_deduction_history_id);
            }
        }
    }
}

/// The `class_deduction_history` table.
pub struct ClassDeductionHistoryRepository {
    rows: Vec<ClassDeductionHistory>,
    next_id: i64,
}

impl View for ClassDeductionHistoryRepository {
    type V = ClassDeductionHistoryTable;

    closed spec fn view(&self) -> ClassDeductionHistoryTable {
        ClassDeductionHistoryTable {
            rows: history_views(self.rows@),
            next_id: self.next_id as int,
        }
    }
}

impl ClassDeductionHistoryRepository {
    /// Whether the table keeps its rules.
    pub open spec fn wf(&self) -> bool {
        self@.wf()
    }

    /// An empty table.
    pub fn new() -> (r: Self)
        ensures
            r.wf(),
            r@.rows == Seq::<ClassDeductionHistoryView>::empty(),
            r@.next_id == 1,
    {
        let r = ClassDeductionHistoryRepository { rows: Vec::new(), next_id: 1 };
        assert(r@.rows =~= Seq::<ClassDeductionHistoryView>::empty());
        r
    }

    /// A copy of the table as it stands.
    pub fn snapshot(&self) -> (r: Self)
        ensures
            r@ == self@,
    {
        let mut rows: Vec<ClassDeductionHistory> = Vec::new();
        let mut i: usize = 0;
        while i < self.rows.len()
            invariant
                0 <= i <= self.rows.len(),
                rows@ == self.rows@.take(i as int),
            decreases self.rows.len() - i,
        {
            rows.push(self.rows[i].clone());
            assert(rows@ =~= self.rows@.take(i + 1));
            i = i + 1;
        }
        assert(rows@ =~= self.rows@);
        ClassDeductionHistoryRepository { rows, next_id: self.next_id }
    }

    /// The rows of the table, in insertion order.
    pub fn rows(&self) -> (r: &Vec<ClassDeductionHistory>)
        ensures
            history_views(r@) == self@.rows,
    {
        &self.rows
    }

    /// The table that holds `rows`, which come in insertion order, if they
    /// keep the rules of the table; the next identifier follows the last.
    pub fn from_rows(rows: Vec<ClassDeductionHistory>) -> (r: Option<Self>)
        ensures
            r is Some == loaded_histories(history_views(rows@)).wf(),
            r matches Some(table) ==> table@ == loaded_histories(history_views(rows@)),
    {
        let ghost wanted = loaded_histories(history_views(rows@));
        let n = rows.len();
        if n == 0 {
            return Some(ClassDeductionHistoryRepository { rows, next_id: 1 });
        }
        if rows[n - 1].class_deduction_history_id == i64::MAX {
            assert(!(wanted.rows[n - 1].class_deduction_history_id < wanted.next_id
                <= i64::MAX));
            return None;
        }
        let next_id = rows[n - 1].class_deduction_history_id + 1;
        if rows[0].class_deduction_history_id < 1 {
            assert(!(1 <= wanted.rows[0].class_deduction_history_id));
            return None;
        }
        let mut j: usize = 1;
        while j < n
            invariant
                1 <= j <= n,
                n == rows.len(),
                wanted == loaded_histories(history_views(rows@)),
                1 <= wanted.rows[0].class_deduction_history_id,
                forall|a: int|
                    0 <= a < j - 1 ==> (#[trigger] wanted.rows[a]).class_deduction_history_id
                        < wanted.rows[a + 1].class_deduction_history_id,
            decreases n - j,
        {
            if rows[j - 1].class_deduction_history_id >= rows[j].class_deduction_history_id {
                assert(!(wanted.rows[j - 1].class_deduction_history_id
                    < wanted.rows[j as int].class_deduction_history_id));
                return None;
            }
            j = j + 1;
        }
        proof {
            lemma_rising(wanted.rows);
        }
        Some(ClassDeductionHistoryRepository { rows, next_id })
    }

    /// Appends a deduction of `class_id` by `user_id`, made at `created_at`,
    /// and returns its identifier.
    pub fn create(&mut self, class_id: i64, user_id: i64, created_at: String) -> (r: Result<
        i64,
        StorageError,
    >)
        requires
            old(self).wf(),
        ensures
            final(self).wf(),
            old(self)@.next_id == i64::MAX ==> r == Err::<i64, StorageError>(
                StorageError::Exhausted,
            ) && final(self)@ == old(self)@,
            old(self)@.next_id < i64::MAX ==> r == Ok::<i64, StorageError>(
                old(self)@.next_id as i64,
            ) && final(self)@ == old(self)@.inserted(class_id, user_id, created_at@),
    {
        if self.next_id == i64::MAX {
            return Err(StorageError::Exhausted);
        }
        let id = self.next_id;
        let ghost before = self@;
        let ghost at = created_at@;
        self.rows.push(
            ClassDeductionHistory { created_at, class_deduction_history_id: id, class_id, user_id },
        );
        self.next_id = id + 1;
        proof {
            assert(self@.rows =~= before.inserted(class_id, user_id, at).rows);
        }
        Ok(id)
    }

    /// The deductions of the class `class_id` made by `user_id`, in
    /// insertion order.
    pub fn get_histories(&self, class_id: i64, user_id: i64) -> (r: Vec<ClassDeductionHistory>)
        ensures
            history_views(r@) == self@.of_class(class_id, user_id),
    {
        let mut out: Vec<ClassDeductionHistory> = Vec::new();
        let ghost pred = |h: ClassDeductionHistoryView|
            h.user_id == user_id && h.class_id == class_id;
        let mut i: usize = 0;
        proof {
            reveal(Seq::filter);
            assert(self@.rows.take(0).filter(pred) =~= Seq::<ClassDeductionHistoryView>::empty());
            assert(history_views(out@) =~= Seq::<ClassDeductionHistoryView>::empty());
        }
        while i < self.rows.len()
            invariant
                0 <= i <= self.rows.len(),
                pred == |h: ClassDeductionHistoryView|
                    h.user_id == user_id && h.class_id == class_id,
                history_views(out@) == self@.rows.take(i as int).filter(pred),
            decreases self.rows.len() - i,
        {
            let ghost before = out@;
            if self.rows[i].user_id == user_id && self.rows[i].class_id == class_id {
                out.push(self.rows[i].clone());
            }
            proof {
                reveal(Seq::filter);
                let next = self@.rows.take(i + 1);
                assert(next.drop_last() =~= self@.rows.take(i as int));
                assert(next.last() == self@.rows[i as int]);
                if pred(self@.rows[i as int]) {
                    assert(history_views(out@) =~= history_views(before).push(
                        self@.rows[i as int],
                    ));
                }
            }
            i = i + 1;
        }
        assert(self@.rows.take(i as int) =~= self@.rows);
        out
    }
}

} // verus!

use crate::datetime::{
    calendar_weekday,
    format_timestamp,
    formatted_timestamp,
    parse_timestamp,
    parsed_timestamp,
    weekday_of,
};
use crate::repositories::storage::StorageError;
use crate::text::{decimal_digits, push_decimal};
use crate::utils::{get_russian_weekday_name, russian_weekday_name, Weekday};
use vstd::prelude::*;

verus! {

/// One entry of the daily practice log.
#[derive(Debug, PartialEq, Eq)]
pub struct DailyPracticeLog {
    pub created_at: String,
    pub user_id: i64,
    pub minutes: u16,
}

/// Mathematical value of a practice entry.
pub struct DailyPracticeLogView {
    pub created_at: Seq<char>,
    pub user_id: i64,
    pub minutes: u16,
}

impl View for DailyPracticeLog {
    type V = DailyPracticeLogView;

    open spec fn view(&self) -> DailyPracticeLogView {
        DailyPracticeLogView {
            created_at: self.created_at@,
            user_id: self.user_id,
            minutes: self.minutes,
        }
    }
}

/// One line of a practice history: the day (the date as it is to be shown
/// and the day of the week, or, where there is none, the stored text as it
/// stands), then the minutes.
pub open spec fn practice_line(
    day: Option<(Seq<char>, Weekday)>,
    created_at: Seq<char>,
    minutes: u16,
) -> Seq<char> {
    match day {
        Some((date, weekday)) => date + " ("@ + russian_weekday_name(weekday, true) + ") - "@
            + decimal_digits(minutes as nat) + " мин"@,
        None => created_at + " - "@ + decimal_digits(minutes as nat) + " мин"@,
    }
}

/// Writes one line of a practice history.
pub fn render_practice_line(day: Option<(&str, Weekday)>, created_at: &str, minutes: u16) -> (line:
    String)
    ensures
        line@ == practice_line(
            match day {
                Some((date, weekday)) => Some((date@, weekday)),
                None => None,
            },
            created_at@,
            minutes,
        ),
{
    match day {
        Some((date, weekday)) => {
            let mut line = date.to_owned();
            line.append(" (");
            line.append(get_russian_weekday_name(weekday, true));
            line.append(") - ");
            push_decimal(&mut line, minutes as u64);
            line.append(" мин");
            line
        },
        None => {
            let mut line = created_at.to_owned();
            line.append(" - ");
            push_decimal(&mut line, minutes as u64);
            line.append(" мин");
            line
        },
    }
}

impl DailyPracticeLogView {
    /// The date of the entry as it is to be shown and its day of the week,
    /// where `created_at` is read as a moment of the calendar.
    pub open spec fn day(self) -> Option<(Seq<char>, Weekday)> {
        match parsed_timestamp(self.created_at, "%Y-%m-%d %H:%M:%S"@) {
            Some(at) => match (
                formatted_timestamp(at, "%d.%m.%Y"@),
                calendar_weekday(at.year, at.month, at.day),
            ) {
                (Some(date), Some(weekday)) => Some((date, weekday)),
                _ => None,
            },
            None => None,
        }
    }

    /// How the entry is shown: day, month and year, the short name of the
    /// day, then the minutes; with the stored text in place of the date
    /// where that text is no moment of the calendar.
    pub open spec fn rendered(self) -> Seq<char> {
        practice_line(self.day(), self.created_at, self.minutes)
    }
}

impl DailyPracticeLog {
    /// How the entry is shown.
    pub fn to_string(&self) -> (text: String)
        ensures
            text@ == self@.rendered(),
    {
        let created_at = self.created_at.as_str();
        match parse_timestamp(created_at, "%Y-%m-%d %H:%M:%S") {
            Some(at) => match format_timestamp(&at, "%d.%m.%Y") {
                Some(date) => match weekday_of(at.year, at.month, at.day) {
                    Some(weekday) => render_practice_line(
                        Some((date.as_str(), weekday)),
                        created_at,
                        self.minutes,
                    ),
                    None => render_practice_line(None, created_at, self.minutes),
                },
                None => render_practice_line(None, created_at, self.minutes),
            },
            None => render_practice_line(None, created_at, self.minutes),
        }
    }
}

impl Clone for DailyPracticeLog {
    fn clone(&self) -> (r: Self)
        ensures
            r == *self,
    {
        DailyPracticeLog {
            created_at: self.created_at.clone(),
            user_id: self.user_id,
            minutes: self.minutes,
        }
    }
}

/// The values of a list of practice entries.
pub open spec fn log_views(rows: Seq<DailyPracticeLog>) -> Seq<DailyPracticeLogView> {
    rows.map_values(|l: DailyPracticeLog| l@)
}

/// Mathematical value of the `daily_practice_log` table: its rows in
/// insertion order. The row at position `i` has the identifier `i + 1`.
pub struct DailyPracticeLogTable {
    pub rows: Seq<DailyPracticeLogView>,
}

impl DailyPracticeLogTable {
    /// The identifier that the next row will get.
    pub open spec fn next_id(self) -> int {
        self.rows.len() as int + 1
    }

    /// The identifiers fit the column.
    pub open spec fn wf(self) -> bool {
        self.next_id() <= i64::MAX
    }

    /// The entries of `user_id`, in insertion order.
    pub open spec fn of_user(self, user_id: i64) -> Seq<DailyPracticeLogView> {
        self.rows.filter(|l: DailyPracticeLogView| l.user_id == user_id)
    }

    /// The table after one more row.
    pub open spec fn inserted(
        self,
        minutes: u16,
        user_id: i64,
        created_at: Seq<char>,
    ) -> DailyPracticeLogTable {
        DailyPracticeLogTable {
            rows: self.rows.push(DailyPracticeLogView { created_at, user_id, minutes }),
        }
    }
}

/// The `daily_practice_log` table.
pub struct DailyPracticeLogRepository {
    rows: Vec<DailyPracticeLog>,
}

impl View for DailyPracticeLogRepository {
    type V = DailyPracticeLogTable;

    closed spec fn view(&self) -> DailyPracticeLogTable {
        DailyPracticeLogTable { rows: log_views(self.rows@) }
    }
}

impl DailyPracticeLogRepository {
    /// Whether the table keeps its rules.
    pub open spec fn wf(&self) -> bool {
        self@.wf()
    }

    /// An empty table.
    pub fn new() -> (r: Self)
        ensures
            r.wf(),
            r@.rows == Seq::<DailyPracticeLogView>::empty(),
    {
        let r = DailyPracticeLogRepository { rows: Vec::new() };
        assert(r@.rows =~= Seq::<DailyPracticeLogView>::empty());
        r
    }

    /// A copy of the table as it stands.
    pub fn snapshot(&self) -> (r: Self)
        ensures
            r@ == self@,
    {
        let mut rows: Vec<DailyPracticeLog> = Vec::new();
        let mut i: usize = 0;
        while i < self.rows.len()
            invariant
                0 <= i <= self.rows.len(),
                rows@ == self.rows@.take(i as int),
            decreases self.rows.len() - i,
        {
            rows.push(self.rows[i].clone());
            assert(rows@ =~= self.rows@.take(i + 1));
            i = i + 1;
        }
        assert(rows@ =~= self.rows@);
        DailyPracticeLogRepository { rows }
    }

    /// The rows of the table, in insertion order.
    pub fn rows(&self) -> (r: &Vec<DailyPracticeLog>)
        ensures
            log_views(r@) == self@.rows,
    {
        &self.rows
    }

    /// The table that holds `rows`, which come in insertion order, if their
    /// identifiers fit the column.
    pub fn from_rows(rows: Vec<DailyPracticeLog>) -> (r: Option<Self>)
        ensures
            r is Some == (DailyPracticeLogTable { rows: log_views(rows@) }).wf(),
            r matches Some(table) ==> table@.rows == log_views(rows@),
    {
        if rows.len() as u64 >= 0x7fff_ffff_ffff_ffff {
            return None;
        }
        Some(DailyPracticeLogRepository { rows })
    }

    /// Appends an entry of `minutes` for `user_id`, made at `created_at`,
    /// and returns its identifier.
    pub fn create(&mut self, minutes: u16, user_id: i64, created_at: String) -> (r: Result<
        i64,
        StorageError,
    >)
        requires
            old(self).wf(),
        ensures
            final(self).wf(),
            old(self)@.next_id() == i64::MAX ==> r == Err::<i64, StorageError>(
                StorageError::Exhausted,
            ) && final(self)@ == old(self)@,
            old(self)@.next_id() < i64::MAX ==> r == Ok::<i64, StorageError>(
                old(self)@.next_id() as i64,
            ) && final(self)@ == old(self)@.inserted(minutes, user_id, created_at@),
    {
        let held: u64 = self.rows.len() as u64;
        if held >= 0x7fff_ffff_ffff_fffe {
            return Err(StorageError::Exhausted);
        }
        let id: i64 = (held + 1) as i64;
        let ghost before = self@;
        let ghost at = created_at@;
        self.rows.push(DailyPracticeLog { created_at, user_id, minutes });
        proof {
            assert(self@.rows =~= before.inserted(minutes, user_id, at).rows);
        }
        Ok(id)
    }

    /// The entries of `user_id`, in insertion order.
    pub fn get_all(&self, user_id: i64) -> (r: Vec<DailyPracticeLog>)
        ensures
            log_views(r@) == self@.of_user(user_id),
    {
        let mut out: Vec<DailyPracticeLog> = Vec::new();
        let ghost pred = |l: DailyPracticeLogView| l.user_id == user_id;
        let mut i: usize = 0;
        proof {
            reveal(Seq::filter);
            assert(self@.rows.take(0).filter(pred) =~= Seq::<DailyPracticeLogView>::empty());
            assert(log_views(out@) =~= Seq::<DailyPracticeLogView>::empty());
        }
        while i < self.rows.len()
            invariant
                0 <= i <= self.rows.len(),
                pred == |l: DailyPracticeLogView| l.user_id == user_id,
                log_views(out@) == self@.rows.take(i as int).filter(pred),
            decreases self.rows.len() - i,
        {
            let ghost before = out@;
            if self.rows[i].user_id == user_id {
                out.push(self.rows[i].clone());
            }
            proof {
                reveal(Seq::filter);
                let next = self@.rows.take(i + 1);
                assert(next.drop_last() =~= self@.rows.take(i as int));
                assert(next.last() == self@.rows[i as int]);
                if pred(self@.rows[i as int]) {
                    assert(log_views(out@) =~= log_views(before).push(self@.rows[i as int]));
                }
            }
            i = i + 1;
        }
        assert(self@.rows.take(i as int) =~= self@.rows);
        out
    }
}

} // verus!

use crate::utils::Weekday;
use chrono::{Datelike, Timelike};
use std::fmt::Write;
use vstd::prelude::*;

verus! {

/// A calendar date and a time of day, without a time zone.
#[derive(Clone, Copy, Debug, PartialEq, Eq, Structural)]
pub struct Timestamp {
    pub year: i32,
    pub month: u32,
    pub day: u32,
    pub hour: u32,
    pub minute: u32,
    pub second: u32,
}

/// The moment that `text` denotes when read by the pattern `format`, as
/// `chrono::NaiveDateTime::parse_from_str` reads it; `None` where it
/// refuses the text.
pub uninterp spec fn parsed_timestamp(text: Seq<char>, format: Seq<char>) -> Option<Timestamp>;

/// The text that `chrono::NaiveDateTime::format` writes for the moment `at`
/// under the pattern `format`; `None` where `at` is no moment of the
/// calendar or the pattern is refused.
pub uninterp spec fn formatted_timestamp(at: Timestamp, format: Seq<char>) -> Option<Seq<char>>;

/// The day of the week on which a calendar date falls, as
/// `chrono::NaiveDate::weekday` gives it; `None` where the calendar has no
/// such date.
pub uninterp spec fn calendar_weekday(year: i32, month: u32, day: u32) -> Option<Weekday>;

/// Calls `chrono::NaiveDateTime::parse_from_str` and hands back the fields
/// of the result. Nothing is claimed of the reading but that it depends on
/// the two texts alone.
#[verifier::external_body]
pub(crate) fn parse_timestamp(text: &str, format: &str) -> (r: Option<Timestamp>)
    ensures
        r == parsed_timestamp(text@, format@),
{
    match chrono::NaiveDateTime::parse_from_str(text, format) {
        Ok(at) => Some(
            Timestamp {
                year: at.year(),
                month: at.month(),
                day: at.day(),
                hour: at.hour(),
                minute: at.minute(),
                second: at.second(),
            },
        ),
        Err(_) => None,
    }
}

/// Calls `chrono::NaiveDateTime::format` on the moment that the fields of
/// `at` make up, and writes the result out. Nothing is claimed of the text
/// but that it depends on the moment and the pattern alone.
#[verifier::external_body]
pub(crate) fn format_timestamp(at: &Timestamp, format: &str) -> (r: Option<String>)
    ensures
        r is Some == formatted_timestamp(*at, format@) is Some,
        r matches Some(text) ==> Some(text@) == formatted_timestamp(*at, format@),
{
    let date = chrono::NaiveDate::from_ymd_opt(at.year, at.month, at.day)?;
    let moment = date.and_hms_opt(at.hour, at.minute, at.second)?;
    let mut text = String::new();
    match write!(text, "{}", moment.format(format)) {
        Ok(()) => Some(text),
        Err(_) => None,
    }
}

/// Calls `chrono::NaiveDate::weekday` on the date that the three numbers
/// make up. Nothing is claimed of the day but that it depends on the date
/// alone.
#[verifier::external_body]
pub(crate) fn weekday_of(year: i32, month: u32, day: u32) -> (r: Option<Weekday>)
    ensures
        r == calendar_weekday(year, month, day),
{
    match chrono::NaiveDate::from_ymd_opt(year, month, day)?.weekday() {
        chrono::Weekday::Mon => Some(Weekday::Mon),
        chrono::Weekday::Tue => Some(Weekday::Tue),
        chrono::Weekday::Wed => Some(Weekday::Wed),
        chrono::Weekday::Thu => Some(Weekday::Thu),
        chrono::Weekday::Fri => Some(Weekday::Fri),
        chrono::Weekday::Sat => Some(Weekday::Sat),
        chrono::Weekday::Sun => Some(Weekday::Sun),
    }
}

} // verus!

use crate::update::Update;
use vstd::prelude::*;

verus! {

/// A day of the week.
#[derive(Clone, Copy, Debug, PartialEq, Eq, Structural)]
pub enum Weekday {
    Mon,
    Tue,
    Wed,
    Thu,
    Fri,
    Sat,
    Sun,
}

/// The Russian name of a day of the week, abbreviated or in full.
pub open spec fn russian_weekday_name(weekday: Weekday, short_form: bool) -> Seq<char> {
    if short_form {
        match weekday {
            Weekday::Mon => "Пн"@,
            Weekday::Tue => "Вт"@,
            Weekday::Wed => "Ср"@,
            Weekday::Thu => "Чт"@,
            Weekday::Fri => "Пт"@,
            Weekday::Sat => "Сб"@,
            Weekday::Sun => "Вс"@,
        }
    } else {
        match weekday {
            Weekday::Mon => "Понедельник"@,
            Weekday::Tue => "Вторник"@,
            Weekday::Wed => "Среда"@,
            Weekday::Thu => "Четверг"@,
            Weekday::Fri => "Пятница"@,
            Weekday::Sat => "Суббота"@,
            Weekday::Sun => "Воскресенье"@,
        }
    }
}

/// The Russian name of a day of the week, abbreviated or in full.
pub fn get_russian_weekday_name(weekday: Weekday, short_form: bool) -> (name: &'static str)
    ensures
        name@ == russian_weekday_name(weekday, short_form),
{
    if short_form {
        return match weekday {
            Weekday::Mon => "Пн",
            Weekday::Tue => "Вт",
            Weekday::Wed => "Ср",
            Weekday::Thu => "Чт",
            Weekday::Fri => "Пт",
            Weekday::Sat => "Сб",
            Weekday::Sun => "Вс",
        };
    }
    match weekday {
        Weekday::Mon => "Понедельник",
        Weekday::Tue => "Вторник",
        Weekday::Wed => "Среда",
        Weekday::Thu => "Четверг",
        Weekday::Fri => "Пятница",
        Weekday::Sat => "Суббота",
        Weekday::Sun => "Воскресенье",
    }
}

/// The user behind an update, where it has one.
pub fn get_user(update: &Update) -> (user: Option<u64>)
    ensures
        user == update.sender(),
{
    match update {
        Update::Message(msg) => msg.from_id,
        Update::CallbackQuery(q) => Some(q.from_id),
        Update::Other { from_id } => *from_id,
    }
}

} // verus!

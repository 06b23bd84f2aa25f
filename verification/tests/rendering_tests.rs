use assistant_bot::repositories::class_deduction_history::{
    render_history_line, ClassDeductionHistory,
};
use assistant_bot::repositories::daily_practice_log::{render_practice_line, DailyPracticeLog};
use assistant_bot::utils::{get_russian_weekday_name, Weekday};

fn deduction(created_at: &str) -> ClassDeductionHistory {
    ClassDeductionHistory {
        created_at: created_at.to_string(),
        class_deduction_history_id: 1,
        class_id: 1,
        user_id: 1,
    }
}

fn entry(created_at: &str, minutes: u16) -> DailyPracticeLog {
    DailyPracticeLog { created_at: created_at.to_string(), user_id: 1, minutes }
}

#[test]
fn weekdays_have_short_and_full_names() {
    let days = [
        (Weekday::Mon, "Пн", "Понедельник"),
        (Weekday::Tue, "Вт", "Вторник"),
        (Weekday::Wed, "Ср", "Среда"),
        (Weekday::Thu, "Чт", "Четверг"),
        (Weekday::Fri, "Пт", "Пятница"),
        (Weekday::Sat, "Сб", "Суббота"),
        (Weekday::Sun, "Вс", "Воскресенье"),
    ];
    for (day, short, full) in days {
        assert_eq!(get_russian_weekday_name(day, true), short);
        assert_eq!(get_russian_weekday_name(day, false), full);
    }
}

#[test]
fn deduction_shows_date_time_and_weekday() {
    assert_eq!(deduction("2015-09-05 23:56:04").to_string(), "05.09.2015 23:56 (Сб)");
    assert_eq!(
        deduction("2024-03-04 10:20:30").try_to_string(),
        Some("04.03.2024 10:20 (Пн)".to_string())
    );
    assert_eq!(
        deduction("2024-02-29 00:00:00").try_to_string(),
        Some("29.02.2024 00:00 (Чт)".to_string())
    );
    assert_eq!(
        deduction("2023-12-31 23:59:59").try_to_string(),
        Some("31.12.2023 23:59 (Вс)".to_string())
    );
}

#[test]
fn every_day_of_a_week_gets_its_name() {
    let week = ["Пн", "Вт", "Ср", "Чт", "Пт", "Сб", "Вс"];
    for (i, short) in week.iter().enumerate() {
        let created_at = format!("2024-03-{:02} 08:05:00", 4 + i);
        assert_eq!(
            deduction(&created_at).try_to_string(),
            Some(format!("{:02}.03.2024 08:05 ({})", 4 + i, short))
        );
    }
}

#[test]
fn a_deduction_without_a_moment_is_not_shown() {
    assert_eq!(deduction("").try_to_string(), None);
    assert_eq!(deduction("yesterday").try_to_string(), None);
    assert_eq!(deduction("2023-02-29 10:00:00").try_to_string(), None);
    assert_eq!(deduction("2024-03-04 24:00:00").try_to_string(), None);
    assert_eq!(deduction("2024-03-04").try_to_string(), None);
    assert_eq!(deduction("04.03.2024 10:20").try_to_string(), None);
}

#[test]
fn practice_entry_shows_date_weekday_and_minutes() {
    assert_eq!(entry("2015-09-05 23:56:04", 30).to_string(), "05.09.2015 (Сб) - 30 мин");
    assert_eq!(entry("2024-03-04 10:20:30", 0).to_string(), "04.03.2024 (Пн) - 0 мин");
    assert_eq!(entry("2024-03-10 00:00:00", 65535).to_string(), "10.03.2024 (Вс) - 65535 мин");
}

#[test]
fn practice_entry_without_a_moment_shows_the_stored_text() {
    assert_eq!(entry("yesterday", 30).to_string(), "yesterday - 30 мин");
    assert_eq!(entry("", 5).to_string(), " - 5 мин");
    assert_eq!(entry("2023-02-29 10:00:00", 5).to_string(), "2023-02-29 10:00:00 - 5 мин");
}

#[test]
fn lines_are_put_together_from_their_parts() {
    assert_eq!(render_history_line("01.01.2024 09:00", Weekday::Mon), "01.01.2024 09:00 (Пн)");
    assert_eq!(
        render_practice_line(Some(("01.01.2024", Weekday::Mon)), "raw", 15),
        "01.01.2024 (Пн) - 15 мин"
    );
    assert_eq!(render_practice_line(None, "raw", 15), "raw - 15 мин");
}

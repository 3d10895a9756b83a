use manaba::assignment::{AssignmentDate, AssignmentImportanceLevel};
use manaba::date::{Date, parse_datetime};
use manaba::error::ManabaError;
use manaba::text::decimal_string;

const TODAY: Date = Date { year: 2024, month: 1, day: 10 };

fn level_of(text: &str) -> AssignmentImportanceLevel {
    AssignmentDate::new(text, &TODAY).unwrap().importance_level
}

#[test]
fn urgency_boundaries_around_today() {
    assert_eq!(level_of("2024-01-10 10:00"), AssignmentImportanceLevel::High);
    assert_eq!(level_of("2024-01-16 10:00"), AssignmentImportanceLevel::Medium);
    assert_eq!(level_of("2024-01-18 10:00"), AssignmentImportanceLevel::Low);
    assert_eq!(level_of("2024-01-05 10:00"), AssignmentImportanceLevel::Expired);
}

#[test]
fn urgency_window_edges() {
    assert_eq!(level_of("2024-01-09 23:59"), AssignmentImportanceLevel::Expired);
    assert_eq!(level_of("2024-01-13 00:00"), AssignmentImportanceLevel::High);
    assert_eq!(level_of("2024-01-14 00:00"), AssignmentImportanceLevel::Medium);
    assert_eq!(level_of("2024-01-17 23:59"), AssignmentImportanceLevel::Medium);
    assert_eq!(level_of("2024-01-18 00:00"), AssignmentImportanceLevel::Low);
}

#[test]
fn urgency_crosses_month_and_year_ends() {
    let eve = Date { year: 2023, month: 12, day: 30 };
    let d = AssignmentDate::new("2024-01-02 09:00", &eve).unwrap();
    assert_eq!(d.importance_level, AssignmentImportanceLevel::High);
    let d = AssignmentDate::new("2024-01-06 09:00", &eve).unwrap();
    assert_eq!(d.importance_level, AssignmentImportanceLevel::Medium);
}

#[test]
fn parse_accepts_exactly_the_fixed_format() {
    let dt = parse_datetime("2024-02-29 23:59").unwrap();
    assert_eq!((dt.year, dt.month, dt.day, dt.hour, dt.minute), (2024, 2, 29, 23, 59));

    assert!(parse_datetime("2023-02-29 00:00").is_none());
    assert!(parse_datetime("2024-13-01 00:00").is_none());
    assert!(parse_datetime("2024-00-01 00:00").is_none());
    assert!(parse_datetime("2024-04-31 00:00").is_none());
    assert!(parse_datetime("2024-01-10 24:00").is_none());
    assert!(parse_datetime("2024-01-10 10:60").is_none());
    assert!(parse_datetime("2024-1-10 10:00").is_none());
    assert!(parse_datetime("2024-01-10T10:00").is_none());
    assert!(parse_datetime("2024-01-10 10:00 ").is_none());
    assert!(parse_datetime("").is_none());
}

#[test]
fn render_restores_the_cell_text() {
    let text = "2024-01-16 09:05";
    let d = AssignmentDate::new(text, &TODAY).unwrap();
    assert_eq!(d.date.render(), text);
    let d = AssignmentDate::new("0001-12-31 00:00", &TODAY).unwrap();
    assert_eq!(d.date.render(), "0001-12-31 00:00");
}

#[test]
fn unparsable_text_is_a_date_error() {
    let err = AssignmentDate::new("tomorrow", &TODAY).unwrap_err();
    assert_eq!(err, ManabaError::DateParse { text: String::from("tomorrow") });
}

#[test]
fn day_numbers_measure_calendar_distance() {
    let a = Date { year: 2024, month: 1, day: 5 };
    let b = Date { year: 2024, month: 1, day: 10 };
    assert_eq!(a.day_number() + 5, b.day_number());
    let feb28 = Date { year: 2024, month: 2, day: 28 };
    let mar1 = Date { year: 2024, month: 3, day: 1 };
    assert_eq!(feb28.day_number() + 2, mar1.day_number());
    let dec31 = Date { year: 2023, month: 12, day: 31 };
    let jan1 = Date { year: 2024, month: 1, day: 1 };
    assert_eq!(dec31.day_number() + 1, jan1.day_number());
}

#[test]
fn date_new_validates_the_calendar() {
    assert!(Date::new(2024, 2, 29).is_some());
    assert!(Date::new(2023, 2, 29).is_none());
    assert!(Date::new(2100, 2, 29).is_none());
    assert!(Date::new(2000, 2, 29).is_some());
    assert!(Date::new(2024, 0, 1).is_none());
    assert!(Date::new(10000, 1, 1).is_none());
}

#[test]
fn decimal_rendering_exact_values() {
    assert_eq!(decimal_string(0), "0");
    assert_eq!(decimal_string(7), "7");
    assert_eq!(decimal_string(42), "42");
    assert_eq!(decimal_string(100), "100");
    assert_eq!(decimal_string(90210), "90210");
}

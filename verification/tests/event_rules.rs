use calendar_api::error::ApiError;
use calendar_api::model::{
    EventCategory, EventInput, EventRecurrence, EventVisibility, RecurrenceFrequency,
};
use calendar_api::rules::{is_valid_description, is_valid_label, validate_event_input};
use calendar_api::time::{CalendarDate, Timestamp};
use chrono::{Duration, Utc};

fn stamp(t: chrono::DateTime<Utc>) -> Timestamp {
    Timestamp::new(t.timestamp(), t.timestamp_subsec_nanos())
}

fn event(name: &str) -> EventInput {
    let start = Utc::now();
    EventInput {
        name: name.to_string(),
        description: None,
        start: stamp(start),
        end: stamp(start + Duration::hours(2)),
        visibility: Default::default(),
        category: Default::default(),
        service: None,
        location: None,
        recurrence: None,
    }
}

#[test]
fn accepts_a_plain_event() {
    let mut input = event("Conseil municipal");
    input.description = Some("Ordre du jour :\n- budget".to_string());
    input.location = Some("Salle du conseil".to_string());
    assert!(validate_event_input(&input).is_ok());
}

#[test]
fn rejects_blank_long_nul_and_markup_names() {
    assert!(validate_event_input(&event("  ")).is_err());
    assert!(validate_event_input(&event(&"a".repeat(151))).is_err());
    assert!(validate_event_input(&event("Conseil\0")).is_err());
    assert!(validate_event_input(&event("<script>alert(1);</script>")).is_err());
}

#[test]
fn rejects_markup_and_nul_in_optional_fields() {
    let mut input = event("Conseil municipal");
    input.location = Some("<script>alert(1);</script>".to_string());
    assert!(validate_event_input(&input).is_err());
    let mut input = event("Conseil municipal");
    input.service = Some("Secr\0".to_string());
    assert!(validate_event_input(&input).is_err());
    let mut input = event("Conseil municipal");
    input.description = Some("a\u{0}b".to_string());
    assert!(validate_event_input(&input).is_err());
}

#[test]
fn rejection_is_a_bad_request() {
    assert_eq!(validate_event_input(&event("")), Err(ApiError::BadRequest));
}

#[test]
fn name_length_limit_counts_characters() {
    assert!(validate_event_input(&event(&"a".repeat(150))).is_ok());
    assert!(validate_event_input(&event(&"é".repeat(150))).is_ok());
    assert!(validate_event_input(&event(&"é".repeat(151))).is_err());
}

#[test]
fn unicode_blank_names_are_refused() {
    assert!(validate_event_input(&event("\u{3000}\u{a0}\t")).is_err());
    assert!(validate_event_input(&event(" x ")).is_ok());
}

#[test]
fn end_must_come_strictly_after_start() {
    let mut input = event("Conseil");
    input.end = input.start;
    assert!(validate_event_input(&input).is_err());
    input.end = Timestamp::new(input.start.secs, input.start.nanos + 1);
    assert!(validate_event_input(&input).is_ok());
    input.end = Timestamp::new(input.start.secs - 1, 999_999_999);
    assert!(validate_event_input(&input).is_err());
}

#[test]
fn service_and_location_limits() {
    let mut input = event("Conseil");
    input.service = Some("s".repeat(128));
    assert!(validate_event_input(&input).is_ok());
    input.service = Some("s".repeat(129));
    assert!(validate_event_input(&input).is_err());
    let mut input = event("Conseil");
    input.location = Some("l".repeat(255));
    assert!(validate_event_input(&input).is_ok());
    input.location = Some("l".repeat(256));
    assert!(validate_event_input(&input).is_err());
    input.location = Some("Salle\ndu conseil".to_string());
    assert!(validate_event_input(&input).is_err());
}

#[test]
fn description_allows_line_breaks_and_tabs_only() {
    assert!(is_valid_description("a\nb\r\nc\td"));
    assert!(!is_valid_description("a\u{7f}b"));
    assert!(!is_valid_description("a\u{85}b"));
    assert!(!is_valid_description("1 > 0"));
    assert!(is_valid_description(&"d".repeat(5000)));
    assert!(!is_valid_description(&"d".repeat(5001)));
}

#[test]
fn labels_refuse_controls_and_angle_brackets() {
    assert!(is_valid_label("Salle des fêtes", 20));
    assert!(!is_valid_label("Salle des fêtes", 14));
    assert!(!is_valid_label("a\tb", 10));
    assert!(!is_valid_label("a<b", 10));
    assert!(!is_valid_label("a>b", 10));
    assert!(is_valid_label("", 0));
}

fn rule(interval: u32, days: Option<Vec<u8>>, ends_on: Option<i32>) -> EventRecurrence {
    EventRecurrence {
        frequency: RecurrenceFrequency::Weekly,
        interval,
        days_of_week: days,
        ends_on: ends_on.map(|d| CalendarDate::from_epoch_days(d).unwrap()),
    }
}

#[test]
fn recurrence_rules_are_checked_against_the_start() {
    // 2026-10-05T18:00:00Z is day 20731.
    let start = Timestamp::new(1_791_223_200, 0);
    assert!(rule(1, None, None).is_valid_for(start));
    assert!(rule(365, Some(vec![1, 4]), Some(20999)).is_valid_for(start));
    assert!(rule(1, None, Some(20731)).is_valid_for(start));
    assert!(!rule(1, None, Some(20730)).is_valid_for(start));
    assert!(!rule(0, None, None).is_valid_for(start));
    assert!(!rule(366, None, None).is_valid_for(start));
    assert!(!rule(1, Some(vec![]), None).is_valid_for(start));
    assert!(!rule(1, Some(vec![7]), None).is_valid_for(start));
    assert!(!rule(1, Some(vec![1, 1]), None).is_valid_for(start));
    assert!(!rule(1, Some(vec![0, 1, 2, 3, 4, 5, 6, 0]), None).is_valid_for(start));
    assert!(rule(1, Some(vec![6, 5, 4, 3, 2, 1, 0]), None).is_valid_for(start));
}

#[test]
fn recurrence_day_of_a_start_before_1970() {
    // 1969-12-31T23:59:59Z is day -1.
    let start = Timestamp::new(-1, 0);
    assert!(rule(1, None, Some(-1)).is_valid_for(start));
    assert!(!rule(1, None, Some(-2)).is_valid_for(start));
    let start = Timestamp::new(-86_400, 0);
    assert!(rule(1, None, Some(-1)).is_valid_for(start));
    let start = Timestamp::new(-86_401, 0);
    assert!(rule(1, None, Some(-2)).is_valid_for(start));
}

#[test]
fn invalid_recurrence_refuses_the_event() {
    let mut input = event("Conseil");
    input.recurrence = Some(rule(0, None, None));
    assert_eq!(validate_event_input(&input), Err(ApiError::BadRequest));
    input.recurrence = Some(rule(2, Some(vec![1]), None));
    assert!(validate_event_input(&input).is_ok());
}

#[test]
fn defaults_are_public_and_other() {
    assert_eq!(EventVisibility::default(), EventVisibility::Public);
    assert_eq!(EventCategory::default(), EventCategory::Other);
}

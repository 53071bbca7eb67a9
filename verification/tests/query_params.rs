use calendar_api::model::{
    EventCategory, EventInput, EventRecurrence, EventVisibility, RecurrenceFrequency,
};
use calendar_api::params::QueryParam;
use calendar_api::queries::{CreateEventQueryView, EditEventQueryView};
use calendar_api::time::{CalendarDate, Timestamp};

fn text(p: &QueryParam) -> &str {
    match p {
        QueryParam::Text(t) => t.as_str(),
        _ => panic!("not a text parameter"),
    }
}

fn input() -> EventInput {
    EventInput {
        name: "Conseil municipal".to_string(),
        description: Some("Ordre du jour".to_string()),
        start: Timestamp::new(1_791_223_200, 0),
        end: Timestamp::new(1_791_230_400, 5),
        visibility: EventVisibility::Private,
        category: EventCategory::Meeting,
        service: None,
        location: Some("Salle du conseil".to_string()),
        recurrence: Some(EventRecurrence {
            frequency: RecurrenceFrequency::Weekly,
            interval: 2,
            days_of_week: Some(vec![1, 4]),
            ends_on: Some(CalendarDate::from_epoch_days(20999).unwrap()),
        }),
    }
}

#[test]
fn parameters_of_an_event_with_a_rule() {
    let p = input().query_params();
    assert_eq!(p.len(), 13);
    assert_eq!(text(&p[0]), "Conseil municipal");
    assert_eq!(text(&p[1]), "Ordre du jour");
    assert!(matches!(p[2], QueryParam::DateTime(t) if t == Timestamp::new(1_791_223_200, 0)));
    assert!(matches!(p[3], QueryParam::DateTime(t) if t == Timestamp::new(1_791_230_400, 5)));
    assert_eq!(text(&p[4]), "private");
    assert_eq!(text(&p[5]), "meeting");
    assert_eq!(text(&p[6]), "");
    assert_eq!(text(&p[7]), "Salle du conseil");
    assert!(matches!(p[8], QueryParam::Bool(true)));
    assert_eq!(text(&p[9]), "weekly");
    assert!(matches!(p[10], QueryParam::I32(2)));
    assert_eq!(text(&p[11]), "1,4");
    assert_eq!(text(&p[12]), "2027-06-30");
}

#[test]
fn parameters_of_an_event_without_a_rule() {
    let mut i = input();
    i.recurrence = None;
    i.description = None;
    i.visibility = EventVisibility::Public;
    i.category = EventCategory::Other;
    let p = i.query_params();
    assert_eq!(text(&p[1]), "");
    assert_eq!(text(&p[4]), "public");
    assert_eq!(text(&p[5]), "other");
    assert!(matches!(p[8], QueryParam::Bool(false)));
    assert_eq!(text(&p[9]), "");
    assert!(matches!(p[10], QueryParam::I32(1)));
    assert_eq!(text(&p[11]), "");
    assert_eq!(text(&p[12]), "");
}

#[test]
fn rule_without_days_or_end() {
    let mut i = input();
    i.recurrence = Some(EventRecurrence {
        frequency: RecurrenceFrequency::Daily,
        interval: 365,
        days_of_week: None,
        ends_on: None,
    });
    let p = i.query_params();
    assert_eq!(text(&p[9]), "daily");
    assert!(matches!(p[10], QueryParam::I32(365)));
    assert_eq!(text(&p[11]), "");
    assert_eq!(text(&p[12]), "");
}

#[test]
fn dates_are_written_in_iso_form() {
    let mut i = input();
    let rule = i.recurrence.as_mut().unwrap();
    rule.ends_on = Some(CalendarDate::from_epoch_days(0).unwrap());
    assert_eq!(text(&i.query_params()[12]), "1970-01-01");
    let rule = i.recurrence.as_mut().unwrap();
    rule.ends_on = Some(CalendarDate::from_epoch_days(-1).unwrap());
    assert_eq!(text(&i.query_params()[12]), "1969-12-31");
}

#[test]
fn calendar_dates_stay_within_chrono() {
    assert!(CalendarDate::from_epoch_days(-96_465_292).is_some());
    assert!(CalendarDate::from_epoch_days(-96_465_293).is_none());
    assert!(CalendarDate::from_epoch_days(95_026_236).is_some());
    assert!(CalendarDate::from_epoch_days(95_026_237).is_none());
    assert_eq!(CalendarDate::from_epoch_days(20999).unwrap().epoch_days(), 20999);
    let last = chrono::NaiveDate::from_epoch_days(95_026_236).unwrap();
    assert_eq!(last.format("%Y-%m-%d").to_string(), "+262142-12-31");
    assert!(chrono::NaiveDate::from_epoch_days(95_026_237).is_none());
    assert!(chrono::NaiveDate::from_epoch_days(-96_465_292).is_some());
    assert!(chrono::NaiveDate::from_epoch_days(-96_465_293).is_none());
}

#[test]
fn creation_and_update_queries_lead_with_their_identifier() {
    let i = input();
    let create = CreateEventQueryView::new(42, &i);
    assert_eq!(create.creator_id(), 42);
    assert_eq!(create.name(), "Conseil municipal");
    assert_eq!(create.query_params().len(), 14);
    assert!(matches!(create.query_params()[0], QueryParam::I32(42)));
    let edit = EditEventQueryView::new(21, &i);
    assert_eq!(edit.id(), 21);
    assert_eq!(edit.name(), "Conseil municipal");
    assert_eq!(text(&edit.query_params()[13]), "2027-06-30");
}

#[test]
fn large_identifiers_wrap_in_i32_parameters() {
    let i = input();
    let create = CreateEventQueryView::new(1 << 31, &i);
    assert!(matches!(create.query_params()[0], QueryParam::I32(i32::MIN)));
    assert_eq!(create.creator_id(), 0xffff_ffff_8000_0000);
    assert_eq!(CreateEventQueryView::new(u64::MAX, &i).creator_id(), u64::MAX);
}

#[test]
fn names_of_the_enumerations() {
    assert_eq!(EventCategory::Meeting.as_str(), "meeting");
    assert_eq!(EventCategory::Activity.as_str(), "activity");
    assert_eq!(EventCategory::Ceremony.as_str(), "ceremony");
    assert_eq!(EventCategory::Other.as_str(), "other");
    assert_eq!(EventVisibility::Public.as_db(), "public");
    assert_eq!(EventVisibility::Private.as_db(), "private");
    assert_eq!(RecurrenceFrequency::Daily.as_str(), "daily");
    assert_eq!(RecurrenceFrequency::Weekly.as_str(), "weekly");
    assert_eq!(RecurrenceFrequency::Monthly.as_str(), "monthly");
    assert_eq!(EventCategory::from_name("ceremony"), Some(EventCategory::Ceremony));
    assert_eq!(EventCategory::from_name("Ceremony"), None);
}

#[test]
fn copies_keep_the_data() {
    let i = input();
    let c = i.clone();
    assert_eq!(c.name, i.name);
    assert_eq!(c.description, i.description);
    assert_eq!(c.location, i.location);
    let r = c.recurrence.unwrap();
    assert_eq!(r.days_of_week, Some(vec![1, 4]));
    assert_eq!(r.interval, 2);
}

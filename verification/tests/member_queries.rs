use calendar_api::members::{
    AddUserToEventQueryView, CanAssignUserQueryView, EventValidationStatus, GetEventMemberQueryView,
    Member, RefreshEventValidationQueryView, RemoveUserFromEventQueryView,
    SetEventValidationQueryView, AcceptEventQueryView,
};
use calendar_api::params::QueryParam;
use calendar_api::status_update::{
    EventStatusUpdateQueryView, EventValidationStatus as Answer,
};

fn int_param(p: &QueryParam) -> i32 {
    match p {
        QueryParam::I32(v) => *v,
        _ => panic!("not an integer parameter"),
    }
}

fn text(p: &QueryParam) -> &str {
    match p {
        QueryParam::Text(t) => t.as_str(),
        _ => panic!("not a text parameter"),
    }
}

#[test]
fn validation_status_names_read_back() {
    for s in [
        EventValidationStatus::Validated,
        EventValidationStatus::Refused,
        EventValidationStatus::Pending,
    ] {
        assert_eq!(EventValidationStatus::from(s.to_string()), s);
    }
    assert_eq!(EventValidationStatus::Validated.to_string(), "validated");
    assert_eq!(EventValidationStatus::Refused.as_str(), "refused");
    assert_eq!(EventValidationStatus::Pending.as_str(), "pending");
    assert_eq!(EventValidationStatus::from("nonsense".to_string()), EventValidationStatus::Pending);
    assert_eq!(EventValidationStatus::from("Validated".to_string()), EventValidationStatus::Pending);
}

#[test]
fn answers_read_back_and_default_to_validated() {
    assert_eq!(Answer::from("refused".to_string()), Answer::Refused);
    assert_eq!(Answer::from("validated".to_string()), Answer::Validated);
    assert_eq!(Answer::from("pending".to_string()), Answer::Validated);
    assert_eq!(Answer::Refused.to_string(), "refused");
    assert_eq!(Answer::Validated.as_str(), "validated");
}

#[test]
fn status_update_reads_back_what_it_writes() {
    let v = EventStatusUpdateQueryView::new(51, 21, Answer::Refused);
    assert_eq!(v.status(), Answer::Refused);
    assert_eq!(v.event_id(), 21);
    assert_eq!(v.user_id(), 51);
    let p = v.query_params();
    assert_eq!(text(&p[0]), "refused");
    assert_eq!(int_param(&p[1]), 21);
    assert_eq!(int_param(&p[2]), 51);
}

#[test]
fn members_keep_their_fields() {
    let m = Member::new(42, EventValidationStatus::Pending);
    assert_eq!(m.user_id(), 42);
    assert_eq!(m.validation_status(), EventValidationStatus::Pending);
}

#[test]
fn member_queries_bind_their_identifiers() {
    let v = GetEventMemberQueryView::new(21);
    assert_eq!(v.event_id(), 21);
    assert_eq!(int_param(&v.query_params()[0]), 21);
    let v = AddUserToEventQueryView::new(51, 21);
    assert_eq!(v.user_id(), 51);
    assert_eq!(v.event_id(), 21);
    assert_eq!(int_param(&v.query_params()[0]), 51);
    let v = SetEventValidationQueryView::new(21, EventValidationStatus::Validated);
    assert_eq!(int_param(&v.query_params()[0]), 21);
    assert_eq!(text(&v.query_params()[1]), "validated");
    let v = RefreshEventValidationQueryView::new(21);
    assert_eq!(v.query_params().len(), 1);
    assert_eq!(int_param(&v.query_params()[0]), 21);
    let v = CanAssignUserQueryView::new(42, 51);
    assert_eq!(int_param(&v.query_params()[0]), 42);
    assert_eq!(int_param(&v.query_params()[1]), 51);
    let v = RemoveUserFromEventQueryView::new(51, 21);
    assert_eq!(v.user_id(), 51);
    assert_eq!(v.event_id(), 21);
    let _ = AcceptEventQueryView::new(51, 21);
}

#[test]
fn member_identifiers_above_i32_wrap() {
    let v = AddUserToEventQueryView::new(3_000_000_000, 21);
    assert_eq!(int_param(&v.query_params()[0]), -1_294_967_296);
    assert_ne!(v.user_id(), 3_000_000_000);
}

#[test]
fn removal_binds_user_then_event_and_answers_the_removed_rows() {
    let v = RemoveUserFromEventQueryView::new(51, 21);
    let p = v.query_params();
    assert_eq!(p.len(), 2);
    assert_eq!(int_param(&p[0]), 51);
    assert_eq!(int_param(&p[1]), 21);
    assert!(calendar_api::members::REMOVE_USER_FROM_EVENT_SQL.ends_with("RETURNING user_id"));
}

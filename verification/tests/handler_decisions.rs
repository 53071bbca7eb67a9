use calendar_api::access::ApprovalStatus;
use calendar_api::detail::GetEventQueryResultView;
use calendar_api::error::ApiError;
use calendar_api::handlers::{
    assignment_outcome, edit_outcome, insertion_outcome, orphan_rule_after_deletion,
    plan_update, prepare_creation, removal_outcome, validation_status_for,
};
use calendar_api::member_params::{DeleteMemberParams, RemoveMemberError};
use calendar_api::members::EventValidationStatus;
use calendar_api::model::{EventRecurrence, RecurrenceFrequency};
use calendar_api::params::QueryParam;
use calendar_api::patch::PatchEventView;
use calendar_api::post::PostEventView;
use calendar_api::time::Timestamp;

fn int_param(p: &QueryParam) -> i32 {
    match p {
        QueryParam::I32(v) => *v,
        _ => panic!("not an integer parameter"),
    }
}

fn row(recurrence_id: Option<i32>) -> GetEventQueryResultView {
    GetEventQueryResultView {
        name: "Conseil municipal".to_string(),
        description: None,
        created_by: Some(42),
        recurrence_id,
        start_date: Timestamp::new(1_791_223_200, 0),
        end_date: Timestamp::new(1_791_230_400, 0),
        owner_id: Some(42),
        visibility: "public".to_string(),
        category: "meeting".to_string(),
        service: None,
        location: None,
        recurrence: recurrence_id.map(|_| EventRecurrence {
            frequency: RecurrenceFrequency::Weekly,
            interval: 1,
            days_of_week: Some(vec![1]),
            ends_on: None,
        }),
    }
}

fn body(name: &str) -> PostEventView {
    PostEventView {
        name: name.to_string(),
        description: None,
        events_start_time: Timestamp::new(1_791_223_200, 0),
        events_end_time: Timestamp::new(1_791_230_400, 0),
        visibility: None,
        category: None,
        service: None,
        location: None,
        recurrence: None,
    }
}

#[test]
fn decisions_on_an_event_map_to_member_statuses() {
    assert_eq!(validation_status_for(ApprovalStatus::Approved), EventValidationStatus::Validated);
    assert_eq!(validation_status_for(ApprovalStatus::Rejected), EventValidationStatus::Refused);
    assert_eq!(validation_status_for(ApprovalStatus::Pending), EventValidationStatus::Pending);
}

#[test]
fn creation_is_checked_before_its_query() {
    let q = prepare_creation(42, body(" Conseil ")).unwrap();
    assert_eq!(q.creator_id(), 42);
    assert_eq!(q.name(), "Conseil");
    assert_eq!(prepare_creation(42, body("   ")).err(), Some(ApiError::BadRequest));
    let mut reversed = body("Conseil");
    reversed.events_end_time = Timestamp::new(0, 0);
    assert_eq!(prepare_creation(42, reversed).err(), Some(ApiError::BadRequest));
}

#[test]
fn deleting_an_event_with_a_rule_deletes_the_rule() {
    let q = orphan_rule_after_deletion(&vec![row(Some(7))]).unwrap();
    assert_eq!(int_param(&q.query_params()[0]), 7);
    assert!(orphan_rule_after_deletion(&vec![row(None)]).is_none());
    assert!(orphan_rule_after_deletion(&vec![]).is_none());
}

#[test]
fn update_of_a_missing_event_is_not_found() {
    assert_eq!(plan_update(21, vec![], PatchEventView::empty()).err(), Some(ApiError::NotFound));
}

#[test]
fn update_is_checked_on_the_updated_event() {
    let mut patch = PatchEventView::empty();
    patch.event_end_time = Some(Timestamp::new(1_791_223_200, 0));
    assert_eq!(plan_update(21, vec![row(None)], patch).err(), Some(ApiError::BadRequest));
    let mut patch = PatchEventView::empty();
    patch.name = Some("<b>".to_string());
    assert_eq!(plan_update(21, vec![row(None)], patch).err(), Some(ApiError::BadRequest));
}

#[test]
fn removing_the_repetition_deletes_the_orphan_rule() {
    let mut patch = PatchEventView::empty();
    patch.recurrence = Some(None);
    let u = plan_update(21, vec![row(Some(7))], patch).unwrap();
    assert_eq!(u.edit.id(), 21);
    let orphan = u.orphan_rule.unwrap();
    assert_eq!(int_param(&orphan.query_params()[0]), 7);
}

#[test]
fn keeping_the_repetition_keeps_the_rule() {
    let mut patch = PatchEventView::empty();
    patch.name = Some(" Conseil ".to_string());
    let u = plan_update(21, vec![row(Some(7))], patch).unwrap();
    assert_eq!(u.edit.name(), "Conseil");
    assert!(u.orphan_rule.is_none());
    let mut patch = PatchEventView::empty();
    patch.recurrence = Some(None);
    let u = plan_update(21, vec![row(None)], patch).unwrap();
    assert!(u.orphan_rule.is_none());
}

#[test]
fn outcomes_of_the_writes() {
    assert_eq!(edit_outcome(None), Err(ApiError::BadRequest));
    assert_eq!(edit_outcome(Some(false)), Err(ApiError::NotFound));
    assert_eq!(edit_outcome(Some(true)), Ok(()));
    assert_eq!(assignment_outcome(false), Err(ApiError::Forbidden));
    assert_eq!(assignment_outcome(true), Ok(()));
    assert_eq!(insertion_outcome(false), Err(ApiError::Conflict));
    assert_eq!(insertion_outcome(true), Ok(()));
    assert_eq!(removal_outcome(&vec![]), Err(ApiError::NotFound));
    assert_eq!(removal_outcome(&vec![51]), Ok(()));
}

#[test]
fn member_removal_parameters() {
    let p = DeleteMemberParams::new(Some("21".to_string()), Some("51".to_string()));
    assert_eq!(p.event_id().as_deref(), Some("21"));
    assert_eq!(p.member_id().as_deref(), Some("51"));
    assert!(p.checked().is_ok());
    assert_eq!(
        DeleteMemberParams::new(None, None).checked().err(),
        Some(RemoveMemberError::UnknownEvent)
    );
    assert_eq!(
        DeleteMemberParams::new(Some("21".to_string()), None).checked().err(),
        Some(RemoveMemberError::UnknownMember)
    );
}

//! The calendar of the caller over a period.

use crate::error::ApiError;
use crate::model::{EventCategory, EventRecurrence};
use crate::time::Timestamp;
use vstd::prelude::*;

verus! {

/// Period of a calendar: both ends included; `end` must not come before `start`.
#[derive(Clone, Copy, Debug, PartialEq, Eq, Structural)]
pub struct GetCalendarParams {
    pub start: Timestamp,
    pub end: Timestamp,
}

/// Answer to a calendar request whose period is `params`: `BadRequest` exactly when the end
/// comes before the start.
pub fn check_period(params: &GetCalendarParams) -> (r: Result<(), ApiError>)
    ensures
        params.end.precedes(params.start) ==> r == Err::<(), ApiError>(ApiError::BadRequest),
        !params.end.precedes(params.start) ==> r is Ok,
{
    if params.end.is_before(&params.start) {
        Err(ApiError::BadRequest)
    } else {
        Ok(())
    }
}

/// An event of a calendar, as read from the database.
#[derive(Debug)]
pub struct Event {
    pub id: i64,
    pub title: String,
    pub start_date: Timestamp,
    pub end_date: Timestamp,
    /// The caller is assigned to the event (otherwise only its owner).
    pub is_member: bool,
    pub category: EventCategory,
    pub service: Option<String>,
    pub location: Option<String>,
    pub recurrence: Option<EventRecurrence>,
}

impl Event {
    /// An event with its identifier, title and dates; an owned event with no category,
    /// service, location nor repetition.
    pub fn new(id: i64, title: String, start_date: Timestamp, end_date: Timestamp) -> (e: Event)
        ensures
            e.id == id,
            e.title == title,
            e.start_date == start_date,
            e.end_date == end_date,
            !e.is_member,
            e.category == EventCategory::Other,
            e.service is None,
            e.location is None,
            e.recurrence is None,
    {
        Event {
            id,
            title,
            start_date,
            end_date,
            is_member: false,
            category: EventCategory::Other,
            service: None,
            location: None,
            recurrence: None,
        }
    }

    /// The identifier of the event.
    pub fn id(&self) -> (id: i64)
        ensures
            id == self.id,
    {
        self.id
    }

    /// The title of the event.
    pub fn title(&self) -> (t: &str)
        ensures
            t@ == self.title@,
    {
        self.title.as_str()
    }

    /// Start of the event.
    pub fn start_date(&self) -> (t: Timestamp)
        ensures
            t == self.start_date,
    {
        self.start_date
    }

    /// End of the event.
    pub fn end_date(&self) -> (t: Timestamp)
        ensures
            t == self.end_date,
    {
        self.end_date
    }
}

/// An event of the calendar, as answered.
#[derive(Debug)]
pub struct EventView {
    pub id: u64,
    pub name: String,
    pub start: Timestamp,
    pub end: Timestamp,
    pub is_member: bool,
    pub category: EventCategory,
    pub service: Option<String>,
    pub location: Option<String>,
    pub recurrence: Option<EventRecurrence>,
}

/// An event of the calendar, as answered: the same fields, the identifier as `u64`.
pub open spec fn event_answer(e: Event) -> EventView {
    EventView {
        id: e.id as u64,
        name: e.title,
        start: e.start_date,
        end: e.end_date,
        is_member: e.is_member,
        category: e.category,
        service: e.service,
        location: e.location,
        recurrence: e.recurrence,
    }
}

impl From<Event> for EventView {
    fn from(event: Event) -> (v: EventView) {
        EventView {
            id: event.id as u64,
            name: event.title,
            start: event.start_date,
            end: event.end_date,
            is_member: event.is_member,
            category: event.category,
            service: event.service,
            location: event.location,
            recurrence: event.recurrence,
        }
    }
}

impl vstd::std_specs::convert::FromSpecImpl<Event> for EventView {
    open spec fn obeys_from_spec() -> bool {
        true
    }

    open spec fn from_spec(v: Event) -> EventView {
        event_answer(v)
    }
}

/// The events of the caller over the period. No paging nor limit.
#[derive(Debug)]
pub struct GetCalendarResultView {
    pub events: Vec<EventView>,
}

/// The calendar answered for the events read, in the same order.
pub fn calendar_result(events: Vec<Event>) -> (r: GetCalendarResultView)
    ensures
        r.events@ == events@.map_values(|e: Event| event_answer(e)),
{
    let mut out: Vec<EventView> = Vec::new();
    for e in it: events
        invariant
            it.seq() == events@,
            out@ == it.seq().take(it.index() as int).map_values(|e: Event| event_answer(e)),
    {
        let ghost k = it.index() as int;
        out.push(EventView::from(e));
        proof {
            assert(it.seq().take(k + 1) =~= it.seq().take(k).push(it.seq()[k]));
            assert(out@ =~= it.seq().take(k + 1).map_values(|e: Event| event_answer(e)));
        }
    }
    proof {
        assert(events@.take(events@.len() as int) =~= events@);
    }
    GetCalendarResultView { events: out }
}

/// Each event of the calendar is answered with the fields read for it: the same identifier,
/// title, dates, membership, category, service, location and repetition rule.
pub proof fn lemma_answer_keeps_fields(e: Event)
    ensures
        e.id >= 0 ==> event_answer(e).id == e.id,
        event_answer(e).name == e.title,
        event_answer(e).start == e.start_date,
        event_answer(e).end == e.end_date,
        event_answer(e).is_member == e.is_member,
        event_answer(e).category == e.category,
        event_answer(e).service == e.service,
        event_answer(e).location == e.location,
        event_answer(e).recurrence == e.recurrence,
{
}

} // verus!

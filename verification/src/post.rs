//! Body of an event creation, and its answer.

use crate::model::{
    EventCategory, EventInput, EventInputView, EventRecurrence, EventVisibility, recurrence_opt,
    text_opt,
};
use crate::text::{trim, trim_seq};
use crate::time::Timestamp;
use vstd::prelude::*;
use vstd::string::*;

verus! {

/// Definition of a new event; `visibility` is `Public` and `category` is `Other` when absent.
#[derive(Debug)]
pub struct PostEventView {
    pub name: String,
    pub description: Option<String>,
    pub events_start_time: Timestamp,
    pub events_end_time: Timestamp,
    pub visibility: Option<EventVisibility>,
    pub category: Option<EventCategory>,
    pub service: Option<String>,
    pub location: Option<String>,
    pub recurrence: Option<EventRecurrence>,
}

impl PostEventView {
    /// The event to write: the name trimmed, the visibility `Public` and the category `Other`
    /// when absent, every other field as sent.
    pub open spec fn input(self) -> EventInputView {
        EventInputView {
            name: trim_seq(self.name@),
            description: text_opt(self.description),
            start: self.events_start_time,
            end: self.events_end_time,
            visibility: match self.visibility {
                Some(v) => v,
                None => EventVisibility::Public,
            },
            category: match self.category {
                Some(c) => c,
                None => EventCategory::Other,
            },
            service: text_opt(self.service),
            location: text_opt(self.location),
            recurrence: recurrence_opt(self.recurrence),
        }
    }

    /// The event to write.
    pub fn into_input(self) -> (input: EventInput)
        ensures
            input@ == self.input(),
    {
        EventInput {
            name: String::from_str(trim(self.name.as_str())),
            description: self.description,
            start: self.events_start_time,
            end: self.events_end_time,
            visibility: match self.visibility {
                Some(v) => v,
                None => EventVisibility::Public,
            },
            category: match self.category {
                Some(c) => c,
                None => EventCategory::Other,
            },
            service: self.service,
            location: self.location,
            recurrence: self.recurrence,
        }
    }
}

/// Answer to a creation: the identifier given to the event.
#[derive(Clone, Copy, Debug, PartialEq, Eq, Structural)]
pub struct PostEventResultView {
    pub event_id: u64,
}

impl PostEventResultView {
    /// The answer for the identifier returned by the insertion.
    pub fn from_inserted(event_id: i32) -> (r: PostEventResultView)
        ensures
            r.event_id == event_id as u64,
    {
        PostEventResultView { event_id: event_id as u64 }
    }
}

/// A created event keeps what was sent: the name trimmed, the visibility and the category
/// sent (`Public` and `Other` only when absent), and every other field as sent.
pub proof fn lemma_created_event_keeps_body(body: PostEventView)
    ensures
        body.input().name == trim_seq(body.name@),
        body.input().description == text_opt(body.description),
        body.input().start == body.events_start_time,
        body.input().end == body.events_end_time,
        forall|v: EventVisibility| body.visibility == Some(v) ==> body.input().visibility == v,
        body.visibility is None ==> body.input().visibility == EventVisibility::Public,
        forall|c: EventCategory| body.category == Some(c) ==> body.input().category == c,
        body.category is None ==> body.input().category == EventCategory::Other,
        body.input().service == text_opt(body.service),
        body.input().location == text_opt(body.location),
        body.input().recurrence == recurrence_opt(body.recurrence),
{
}

} // verus!

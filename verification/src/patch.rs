//! Partial update of an event: an absent field is kept, `null` clears an optional one.

use crate::model::{
    EventCategory, EventInput, EventInputView, EventRecurrence, EventRecurrenceView,
    EventVisibility, recurrence_opt, text_opt,
};
use crate::text::{trim, trim_seq};
use crate::time::Timestamp;
use vstd::prelude::*;
use vstd::string::*;

verus! {

/// Partial update: an absent field (`None`) is kept; for an optional field, `Some(None)`
/// clears it.
#[derive(Debug)]
pub struct PatchEventView {
    pub name: Option<String>,
    pub description: Option<Option<String>>,
    pub event_start_time: Option<Timestamp>,
    pub event_end_time: Option<Timestamp>,
    pub visibility: Option<EventVisibility>,
    pub category: Option<EventCategory>,
    pub service: Option<Option<String>>,
    pub location: Option<Option<String>>,
    /// `Some(None)` removes the repetition.
    pub recurrence: Option<Option<EventRecurrence>>,
}

/// A partial update, with its texts as characters.
pub struct PatchView {
    pub name: Option<Seq<char>>,
    pub description: Option<Option<Seq<char>>>,
    pub event_start_time: Option<Timestamp>,
    pub event_end_time: Option<Timestamp>,
    pub visibility: Option<EventVisibility>,
    pub category: Option<EventCategory>,
    pub service: Option<Option<Seq<char>>>,
    pub location: Option<Option<Seq<char>>>,
    pub recurrence: Option<Option<EventRecurrenceView>>,
}

/// The view of a field that may be absent or cleared.
pub open spec fn nested_text(o: Option<Option<String>>) -> Option<Option<Seq<char>>> {
    match o {
        Some(inner) => Some(text_opt(inner)),
        None => None,
    }
}

impl View for PatchEventView {
    type V = PatchView;

    open spec fn view(&self) -> PatchView {
        PatchView {
            name: text_opt(self.name),
            description: nested_text(self.description),
            event_start_time: self.event_start_time,
            event_end_time: self.event_end_time,
            visibility: self.visibility,
            category: self.category,
            service: nested_text(self.service),
            location: nested_text(self.location),
            recurrence: match self.recurrence {
                Some(inner) => Some(recurrence_opt(inner)),
                None => None,
            },
        }
    }
}

/// The new value of a field: the one sent when present, the current one otherwise.
pub open spec fn sent_or<T>(sent: Option<T>, current: T) -> T {
    match sent {
        Some(v) => v,
        None => current,
    }
}

/// The update that changes nothing.
pub open spec fn empty_patch() -> PatchView {
    PatchView {
        name: None,
        description: None,
        event_start_time: None,
        event_end_time: None,
        visibility: None,
        category: None,
        service: None,
        location: None,
        recurrence: None,
    }
}

impl PatchView {
    /// The event once the update is applied: each field sent replaces the current one, a
    /// name sent is trimmed first.
    pub open spec fn applied_to(self, input: EventInputView) -> EventInputView {
        EventInputView {
            name: match self.name {
                Some(n) => trim_seq(n),
                None => input.name,
            },
            description: sent_or(self.description, input.description),
            start: sent_or(self.event_start_time, input.start),
            end: sent_or(self.event_end_time, input.end),
            visibility: sent_or(self.visibility, input.visibility),
            category: sent_or(self.category, input.category),
            service: sent_or(self.service, input.service),
            location: sent_or(self.location, input.location),
            recurrence: sent_or(self.recurrence, input.recurrence),
        }
    }
}

impl PatchEventView {
    /// The update that changes nothing.
    pub fn empty() -> (p: PatchEventView)
        ensures
            p@ == empty_patch(),
    {
        PatchEventView {
            name: None,
            description: None,
            event_start_time: None,
            event_end_time: None,
            visibility: None,
            category: None,
            service: None,
            location: None,
            recurrence: None,
        }
    }

    /// Applies the update to the current state of the event.
    pub fn apply_to(self, input: EventInput) -> (r: EventInput)
        ensures
            r@ == self@.applied_to(input@),
    {
        let mut input = input;
        if let Some(name) = self.name {
            input.name = String::from_str(trim(name.as_str()));
        }
        if let Some(description) = self.description {
            input.description = description;
        }
        if let Some(start) = self.event_start_time {
            input.start = start;
        }
        if let Some(end) = self.event_end_time {
            input.end = end;
        }
        if let Some(visibility) = self.visibility {
            input.visibility = visibility;
        }
        if let Some(category) = self.category {
            input.category = category;
        }
        if let Some(service) = self.service {
            input.service = service;
        }
        if let Some(location) = self.location {
            input.location = location;
        }
        if let Some(recurrence) = self.recurrence {
            input.recurrence = recurrence;
        }
        input
    }
}

impl Default for PatchEventView {
    fn default() -> (p: PatchEventView)
        ensures
            p@ == empty_patch(),
    {
        PatchEventView::empty()
    }
}

/// A field absent from the update stays unchanged: the empty update changes nothing.
pub proof fn lemma_empty_patch_keeps_event(input: EventInputView)
    ensures
        empty_patch().applied_to(input) == input,
{
}

/// Applying the same update twice gives the event that applying it once gives.
pub proof fn lemma_patch_idempotent(patch: PatchView, input: EventInputView)
    ensures
        patch.applied_to(patch.applied_to(input)) == patch.applied_to(input),
{
    match patch.name {
        Some(n) => crate::text::lemma_trim_idempotent(n),
        None => {},
    }
}

/// Each field sent in an update replaces the current value (a sent name trimmed first), and
/// each field left out keeps its current value.
pub proof fn lemma_sent_fields_replace(patch: PatchView, e: EventInputView)
    ensures
        forall|n: Seq<char>| patch.name == Some(n) ==> patch.applied_to(e).name == trim_seq(n),
        patch.name is None ==> patch.applied_to(e).name == e.name,
        forall|d: Option<Seq<char>>|
            patch.description == Some(d) ==> patch.applied_to(e).description == d,
        patch.description is None ==> patch.applied_to(e).description == e.description,
        forall|t: Timestamp| patch.event_start_time == Some(t) ==> patch.applied_to(e).start == t,
        patch.event_start_time is None ==> patch.applied_to(e).start == e.start,
        forall|t: Timestamp| patch.event_end_time == Some(t) ==> patch.applied_to(e).end == t,
        patch.event_end_time is None ==> patch.applied_to(e).end == e.end,
        forall|v: EventVisibility|
            patch.visibility == Some(v) ==> patch.applied_to(e).visibility == v,
        patch.visibility is None ==> patch.applied_to(e).visibility == e.visibility,
        forall|c: EventCategory| patch.category == Some(c) ==> patch.applied_to(e).category == c,
        patch.category is None ==> patch.applied_to(e).category == e.category,
        forall|s: Option<Seq<char>>| patch.service == Some(s) ==> patch.applied_to(e).service == s,
        patch.service is None ==> patch.applied_to(e).service == e.service,
        forall|l: Option<Seq<char>>|
            patch.location == Some(l) ==> patch.applied_to(e).location == l,
        patch.location is None ==> patch.applied_to(e).location == e.location,
        forall|r: Option<EventRecurrenceView>|
            patch.recurrence == Some(r) ==> patch.applied_to(e).recurrence == r,
        patch.recurrence is None ==> patch.applied_to(e).recurrence == e.recurrence,
{
}

} // verus!

//! An event as read from the database, and the detail answered for it.

use crate::access::{ApprovalStatus, EventAccess};
use crate::error::ApiError;
use crate::members::EventValidationStatus;
use crate::model::{
    EventCategory, EventInput, EventInputView, EventRecurrence, EventRecurrenceView,
    EventVisibility, copy_recurrence, copy_text, recurrence_opt, text_opt,
};
use crate::time::Timestamp;
use vstd::prelude::*;
use vstd::string::*;

verus! {

/// An event as the database returns it.
#[derive(Debug)]
pub struct GetEventQueryResultView {
    pub name: String,
    pub description: Option<String>,
    pub created_by: Option<i32>,
    pub recurrence_id: Option<i32>,
    pub start_date: Timestamp,
    pub end_date: Timestamp,
    pub owner_id: Option<i32>,
    pub visibility: String,
    pub category: String,
    pub service: Option<String>,
    pub location: Option<String>,
    pub recurrence: Option<EventRecurrence>,
}

impl GetEventQueryResultView {
    /// `private` reads as `Private`, any other value as `Public`.
    pub open spec fn visibility_kind(self) -> EventVisibility {
        if self.visibility@ == "private"@ {
            EventVisibility::Private
        } else {
            EventVisibility::Public
        }
    }

    /// A category name reads as its category, any other value as `Other`.
    pub open spec fn category_kind(self) -> EventCategory {
        match EventCategory::named(self.category@) {
            Some(c) => c,
            None => EventCategory::Other,
        }
    }

    /// The event in the form in which it is written.
    pub open spec fn input(self) -> EventInputView {
        EventInputView {
            name: self.name@,
            description: text_opt(self.description),
            start: self.start_date,
            end: self.end_date,
            visibility: self.visibility_kind(),
            category: self.category_kind(),
            service: text_opt(self.service),
            location: text_opt(self.location),
            recurrence: recurrence_opt(self.recurrence),
        }
    }

    /// The name of the event.
    pub fn name(&self) -> (n: &str)
        ensures
            n@ == self.name@,
    {
        self.name.as_str()
    }

    /// The description of the event, if any.
    pub fn description(&self) -> (d: Option<&str>)
        ensures
            match d {
                Some(t) => self.description is Some && t@ == self.description->0@,
                None => self.description is None,
            },
    {
        match &self.description {
            Some(t) => Some(t.as_str()),
            None => None,
        }
    }

    /// The creator of the event, if known.
    pub fn created_by(&self) -> (c: Option<i32>)
        ensures
            c == self.created_by,
    {
        self.created_by
    }

    /// The repetition rule of the event, if any.
    pub fn recurrence_id(&self) -> (r: Option<i32>)
        ensures
            r == self.recurrence_id,
    {
        self.recurrence_id
    }

    /// Start of the event.
    pub fn start_date(&self) -> (t: Timestamp)
        ensures
            t == self.start_date,
    {
        self.start_date
    }

    /// End of the event.
    pub fn end_date(&self) -> (t: Timestamp)
        ensures
            t == self.end_date,
    {
        self.end_date
    }

    /// The owner of the event, if any.
    pub fn owner_id(&self) -> (o: Option<i32>)
        ensures
            o == self.owner_id,
    {
        self.owner_id
    }

    /// The visibility of the event: `private` reads as `Private`, anything else as `Public`.
    pub fn visibility(&self) -> (v: EventVisibility)
        ensures
            v == self.visibility_kind(),
    {
        if crate::text::same_text(self.visibility.as_str(), "private") {
            EventVisibility::Private
        } else {
            EventVisibility::Public
        }
    }

    /// The category of the event: a category name reads as its category, anything else as
    /// `Other`.
    pub fn category(&self) -> (c: EventCategory)
        ensures
            c == self.category_kind(),
    {
        match EventCategory::from_name(self.category.as_str()) {
            Some(c) => c,
            None => EventCategory::Other,
        }
    }

    /// The data of the event in the form in which it is written, to apply a partial update.
    pub fn to_input(&self) -> (input: EventInput)
        ensures
            input@ == self.input(),
    {
        EventInput {
            name: self.name.clone(),
            description: copy_text(&self.description),
            start: self.start_date,
            end: self.end_date,
            visibility: self.visibility(),
            category: self.category(),
            service: copy_text(&self.service),
            location: copy_text(&self.location),
            recurrence: copy_recurrence(&self.recurrence),
        }
    }
}

/// Reading back what `as_db` and `as_str` write gives the visibility and the category.
pub proof fn lemma_stored_names_read_back(row: GetEventQueryResultView)
    ensures
        forall|v: EventVisibility| row.visibility@ == v.db_name() ==> row.visibility_kind() == v,
        forall|c: EventCategory| row.category@ == c.name() ==> row.category_kind() == c,
{
    reveal_strlit("public");
    reveal_strlit("private");
    reveal_strlit("meeting");
    reveal_strlit("activity");
    reveal_strlit("ceremony");
    reveal_strlit("other");
    assert("public"@[1] != "private"@[1]);
    assert("meeting"@[0] != "activity"@[0]);
    assert("meeting"@[0] != "ceremony"@[0]);
    assert("meeting"@[0] != "other"@[0]);
    assert("activity"@[0] != "ceremony"@[0]);
    assert("activity"@[0] != "other"@[0]);
    assert("ceremony"@[0] != "other"@[0]);
}

/// A member of an event, in the detail answered.
#[derive(Clone, Copy, Debug, PartialEq, Eq, Structural)]
pub struct Member {
    pub id: u64,
    pub validation_status: EventValidationStatus,
}

/// Rights of the caller on the event.
#[derive(Clone, Copy, Debug, PartialEq, Eq, Structural)]
pub struct EventPermissionsView {
    pub can_edit: bool,
    pub can_delete: bool,
    pub can_validate: bool,
}

/// Detail of an event and of the rights of the caller on it.
#[derive(Debug)]
pub struct GetEventResultView {
    pub id: u64,
    pub name: String,
    pub description: Option<String>,
    pub events_start_time: Timestamp,
    pub events_end_time: Timestamp,
    pub visibility: EventVisibility,
    pub category: EventCategory,
    pub service: Option<String>,
    pub location: Option<String>,
    pub recurrence: Option<EventRecurrence>,
    pub owner: Option<u64>,
    pub created_by: Option<u64>,
    pub members: Vec<Member>,
    pub approval_status: ApprovalStatus,
    pub permissions: EventPermissionsView,
}

/// The members of an event, as answered.
#[derive(Debug)]
pub struct GetMembersResultView {
    pub members: Vec<Member>,
}

/// A stored identifier, as answered (`id as u64`).
pub open spec fn answered_id(id: Option<i32>) -> Option<u64> {
    match id {
        Some(i) => Some(i as u64),
        None => None,
    }
}

/// A member read from the database, as answered.
pub open spec fn member_answer(m: crate::members::Member) -> Member {
    Member { id: m.user() as u64, validation_status: m.status() }
}

/// The members read from the database, as answered, in the same order.
pub open spec fn members_answer(ms: Seq<crate::members::Member>) -> Seq<Member> {
    ms.map_values(|m: crate::members::Member| member_answer(m))
}

/// The rights of the caller, as answered.
pub open spec fn permissions_answer(access: EventAccess) -> EventPermissionsView {
    EventPermissionsView {
        can_edit: access.editor(),
        can_delete: access.deleter(),
        can_validate: access.validator(),
    }
}

/// The detail answered for event `event_id` read as `row`, with `members` and the rights
/// `access` of the caller.
pub open spec fn detail_of(
    d: GetEventResultView,
    event_id: u64,
    row: GetEventQueryResultView,
    members: Seq<crate::members::Member>,
    access: EventAccess,
) -> bool {
    let input = row.input();
    &&& d.id == event_id
    &&& d.name@ == input.name
    &&& text_opt(d.description) == input.description
    &&& d.events_start_time == input.start
    &&& d.events_end_time == input.end
    &&& d.visibility == input.visibility
    &&& d.category == input.category
    &&& text_opt(d.service) == input.service
    &&& text_opt(d.location) == input.location
    &&& recurrence_opt(d.recurrence) == input.recurrence
    &&& d.owner == answered_id(row.owner_id)
    &&& d.created_by == answered_id(row.created_by)
    &&& d.members@ == members_answer(members)
    &&& d.approval_status == access.approval_status
    &&& d.permissions == permissions_answer(access)
}

/// The members read from the database, as answered, in the same order.
pub fn member_views(members: &Vec<crate::members::Member>) -> (r: Vec<Member>)
    ensures
        r@ == members_answer(members@),
{
    let mut out: Vec<Member> = Vec::new();
    let n = members.len();
    let mut i: usize = 0;
    while i < n
        invariant
            n == members@.len(),
            i <= n,
            out@ == members_answer(members@.take(i as int)),
        decreases n - i,
    {
        let m = &members[i];
        out.push(Member { id: m.user_id() as u64, validation_status: m.validation_status() });
        proof {
            assert(members@.take(i as int + 1) =~= members@.take(i as int).push(members@[i as int]));
            assert(out@ =~= members_answer(members@.take(i as int + 1)));
        }
        i = i + 1;
    }
    assert(members@.take(n as int) =~= members@);
    out
}

/// The members of an event, as answered.
pub fn members_result(members: &Vec<crate::members::Member>) -> (r: GetMembersResultView)
    ensures
        r.members@ == members_answer(members@),
{
    GetMembersResultView { members: member_views(members) }
}

/// The detail of event `event_id` from the rows read for it: `NotFound` when no row came
/// back, otherwise the first row with the members and the rights of the caller.
pub fn event_detail(
    event_id: u64,
    events: Vec<GetEventQueryResultView>,
    members: &Vec<crate::members::Member>,
    access: &EventAccess,
) -> (r: Result<GetEventResultView, ApiError>)
    ensures
        events@.len() == 0 <==> r is Err,
        r is Err ==> r == Err::<GetEventResultView, ApiError>(ApiError::NotFound),
        r matches Ok(d) ==> detail_of(d, event_id, events@[0], members@, *access),
{
    if events.len() == 0 {
        return Err(ApiError::NotFound);
    }
    let mut events = events;
    let event = events.swap_remove(0);
    let input = event.to_input();
    let owner = match event.owner_id() {
        Some(id) => Some(id as u64),
        None => None,
    };
    let created_by = match event.created_by() {
        Some(id) => Some(id as u64),
        None => None,
    };
    Ok(GetEventResultView {
        id: event_id,
        name: input.name,
        description: input.description,
        events_start_time: input.start,
        events_end_time: input.end,
        visibility: input.visibility,
        category: input.category,
        service: input.service,
        location: input.location,
        recurrence: input.recurrence,
        owner,
        created_by,
        members: member_views(members),
        approval_status: access.approval_status,
        permissions: EventPermissionsView {
            can_edit: access.can_edit(),
            can_delete: access.can_delete(),
            can_validate: access.can_validate(),
        },
    })
}

/// An event read back from the database keeps every stored field: its name, description,
/// dates, service, location and repetition rule are those of the row.
pub proof fn lemma_stored_event_keeps_fields(row: GetEventQueryResultView)
    ensures
        row.input().name == row.name@,
        row.input().description == text_opt(row.description),
        row.input().start == row.start_date,
        row.input().end == row.end_date,
        row.input().service == text_opt(row.service),
        row.input().location == text_opt(row.location),
        row.input().recurrence == recurrence_opt(row.recurrence),
{
}

/// The detail answered for an event carries what was read: the identifier asked for, the
/// stored name, description, dates, service, location and repetition rule, the members in
/// the order read, the approval status and the rights of the caller.
pub proof fn lemma_detail_keeps_row(
    d: GetEventResultView,
    event_id: u64,
    row: GetEventQueryResultView,
    members: Seq<crate::members::Member>,
    access: EventAccess,
)
    requires
        detail_of(d, event_id, row, members, access),
    ensures
        d.id == event_id,
        d.name@ == row.name@,
        text_opt(d.description) == text_opt(row.description),
        d.events_start_time == row.start_date,
        d.events_end_time == row.end_date,
        text_opt(d.service) == text_opt(row.service),
        text_opt(d.location) == text_opt(row.location),
        recurrence_opt(d.recurrence) == recurrence_opt(row.recurrence),
        d.members@.len() == members.len(),
        forall|i: int|
            0 <= i < members.len() ==> (#[trigger] d.members@[i]).id == members[i].user() as u64
                && d.members@[i].validation_status == members[i].status(),
        d.approval_status == access.approval_status,
        d.permissions.can_edit == access.grants(crate::access::EventPermission::Edit),
        d.permissions.can_delete == access.grants(crate::access::EventPermission::Delete),
        d.permissions.can_validate == access.grants(crate::access::EventPermission::Validate),
{
}

} // verus!

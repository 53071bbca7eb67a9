//! Members of an event: their validation status, and the queries that read, add,
//! remove or revalidate them.

use crate::params::{QueryParam, QueryParamView, int_of, params_view, text_of};
use vstd::prelude::*;
use vstd::string::*;

verus! {

/// Validation status of a member of an event: `validated`, `refused` or `pending`.
#[derive(Clone, Copy, Debug, PartialEq, Eq, Structural)]
pub enum EventValidationStatus {
    Validated,
    Refused,
    Pending,
}

impl EventValidationStatus {
    /// The value of the `event_validation_status` database type.
    pub open spec fn name(self) -> Seq<char> {
        match self {
            EventValidationStatus::Validated => "validated"@,
            EventValidationStatus::Refused => "refused"@,
            EventValidationStatus::Pending => "pending"@,
        }
    }

    /// The status named `text`; any other text reads as `Pending`.
    pub open spec fn parsed(text: Seq<char>) -> EventValidationStatus {
        if text == "validated"@ {
            EventValidationStatus::Validated
        } else if text == "refused"@ {
            EventValidationStatus::Refused
        } else {
            EventValidationStatus::Pending
        }
    }

    /// The status named `text`; any other text reads as `Pending`.
    pub fn parse(text: &str) -> (s: EventValidationStatus)
        ensures
            s == EventValidationStatus::parsed(text@),
    {
        if crate::text::same_text(text, "validated") {
            EventValidationStatus::Validated
        } else if crate::text::same_text(text, "refused") {
            EventValidationStatus::Refused
        } else {
            EventValidationStatus::Pending
        }
    }

    /// The value of the `event_validation_status` database type.
    pub fn as_str(&self) -> (s: &'static str)
        ensures
            s@ == self.name(),
    {
        proof {
            reveal_strlit("validated");
            reveal_strlit("refused");
            reveal_strlit("pending");
        }
        match self {
            EventValidationStatus::Validated => "validated",
            EventValidationStatus::Refused => "refused",
            EventValidationStatus::Pending => "pending",
        }
    }

    /// The value of the `event_validation_status` database type, as an owned text.
    pub fn to_string(&self) -> (s: String)
        ensures
            s@ == self.name(),
    {
        String::from_str(self.as_str())
    }
}

impl From<String> for EventValidationStatus {
    fn from(s: String) -> (r: EventValidationStatus) {
        EventValidationStatus::parse(s.as_str())
    }
}

impl vstd::std_specs::convert::FromSpecImpl<String> for EventValidationStatus {
    open spec fn obeys_from_spec() -> bool {
        true
    }

    open spec fn from_spec(v: String) -> EventValidationStatus {
        EventValidationStatus::parsed(v@)
    }
}

/// Reading back the name of a status gives the status.
pub proof fn lemma_status_name_round_trip(status: EventValidationStatus)
    ensures
        EventValidationStatus::parsed(status.name()) == status,
{
    reveal_strlit("validated");
    reveal_strlit("refused");
    reveal_strlit("pending");
    assert("validated"@[0] != "refused"@[0]);
    assert("pending"@[0] != "validated"@[0]);
    assert("pending"@[0] != "refused"@[0]);
}

/// A member of an event and their validation status.
#[derive(Clone, Copy, Debug, PartialEq, Eq, Structural)]
pub struct Member {
    user_id: i32,
    validation_status: EventValidationStatus,
}

impl Member {
    /// The identifier of the member.
    pub closed spec fn user(self) -> i32 {
        self.user_id
    }

    /// The validation status of the member.
    pub closed spec fn status(self) -> EventValidationStatus {
        self.validation_status
    }

    /// Makes a member.
    pub fn new(user_id: i32, validation_status: EventValidationStatus) -> (m: Member)
        ensures
            m.user() == user_id,
            m.status() == validation_status,
    {
        Member { user_id, validation_status }
    }

    /// The identifier of the member.
    pub fn user_id(&self) -> (id: i32)
        ensures
            id == self.user(),
    {
        self.user_id
    }

    /// The validation status of the member.
    pub fn validation_status(&self) -> (s: EventValidationStatus)
        ensures
            s == self.status(),
    {
        self.validation_status
    }
}

/// Reads the members of event `$1` and their validation status.
#[derive(Debug)]
pub struct GetEventMemberQueryView {
    params: Vec<QueryParam>,
}

impl View for GetEventMemberQueryView {
    type V = Seq<QueryParamView>;

    closed spec fn view(&self) -> Seq<QueryParamView> {
        params_view(self.params@)
    }
}

impl GetEventMemberQueryView {
    #[verifier::type_invariant]
    spec fn well_formed(self) -> bool {
        self.params@.len() == 1 && self.params@[0] is I32
    }

    /// Reads the members of event `event_id`.
    pub fn new(event_id: u64) -> (v: GetEventMemberQueryView)
        ensures
            v@ == seq![QueryParamView::I32(event_id as i32)],
    {
        let v = GetEventMemberQueryView { params: vec![QueryParam::I32(event_id as i32)] };
        assert(v@ =~= seq![QueryParamView::I32(event_id as i32)]);
        v
    }

    /// The event whose members are read.
    pub fn event_id(&self) -> (id: u64)
        ensures
            self@.len() == 1,
            id == int_of(self@[0]) as u64,
    {
        proof {
            use_type_invariant(self);
        }
        self.params[0].as_i32() as u64
    }

    /// The values bound to the placeholders.
    pub fn query_params(&self) -> (p: &Vec<QueryParam>)
        ensures
            params_view(p@) == self@,
    {
        &self.params
    }
}

pub const GET_EVENT_MEMBERS_SQL: &'static str = "SELECT to_jsonb(t) FROM (\n            SELECT user_id, validation_status FROM \
    event_members WHERE event_id = $1\n         ) t";

/// Applies a validation status to every member of event `$1`.
#[derive(Debug)]
pub struct SetEventValidationQueryView {
    params: Vec<QueryParam>,
}

impl View for SetEventValidationQueryView {
    type V = Seq<QueryParamView>;

    closed spec fn view(&self) -> Seq<QueryParamView> {
        params_view(self.params@)
    }
}

impl SetEventValidationQueryView {
    /// Applies `status` to every member of event `event_id`.
    pub fn new(event_id: u64, status: EventValidationStatus) -> (v: SetEventValidationQueryView)
        ensures
            v@ == seq![QueryParamView::I32(event_id as i32), QueryParamView::Text(status.name())],
    {
        let v = SetEventValidationQueryView {
            params: vec![QueryParam::I32(event_id as i32), QueryParam::Text(status.to_string())],
        };
        assert(v@ =~= seq![QueryParamView::I32(event_id as i32), QueryParamView::Text(status.name())]);
        v
    }

    /// The values bound to the placeholders.
    pub fn query_params(&self) -> (p: &Vec<QueryParam>)
        ensures
            params_view(p@) == self@,
    {
        &self.params
    }
}

pub const SET_EVENT_VALIDATION_SQL: &'static str = "UPDATE event_members SET validation_status = $2::event_validation_status WHERE \
    event_id = $1";

/// Recomputes the validation of event `$1` after a change of its members: pending when a
/// Responsable must approve it, validated otherwise; without a known creator the statuses stay.
#[derive(Debug)]
pub struct RefreshEventValidationQueryView {
    params: Vec<QueryParam>,
}

impl View for RefreshEventValidationQueryView {
    type V = Seq<QueryParamView>;

    closed spec fn view(&self) -> Seq<QueryParamView> {
        params_view(self.params@)
    }
}

impl RefreshEventValidationQueryView {
    /// Recomputes the validation of event `event_id`.
    pub fn new(event_id: u64) -> (v: RefreshEventValidationQueryView)
        ensures
            v@ == seq![QueryParamView::I32(event_id as i32)],
    {
        let v = RefreshEventValidationQueryView { params: vec![QueryParam::I32(event_id as i32)] };
        assert(v@ =~= seq![QueryParamView::I32(event_id as i32)]);
        v
    }

    /// The values bound to the placeholders.
    pub fn query_params(&self) -> (p: &Vec<QueryParam>)
        ensures
            params_view(p@) == self@,
    {
        &self.params
    }
}

pub const REFRESH_EVENT_VALIDATION_SQL: &'static str = "UPDATE event_members SET validation_status = (CASE WHEN (EXISTS (SELECT 1 FROM \
    events ev JOIN user_roles ur ON ur.user_id = ev.created_by JOIN roles r ON r.id = \
    ur.role_id WHERE ev.id = $1 AND r.name IN ('User', 'Guest')) AND NOT EXISTS (SELECT \
    1 FROM events ev JOIN user_roles ur ON ur.user_id = ev.created_by JOIN roles r ON \
    r.id = ur.role_id WHERE ev.id = $1 AND r.name IN ('Admin', 'Maire', 'Responsable')) \
    AND EXISTS (SELECT 1 FROM events ev JOIN event_members m ON m.event_id = ev.id JOIN \
    user_roles ur ON ur.user_id = m.user_id JOIN roles r ON r.id = ur.role_id AND r.name \
    = 'Responsable' JOIN group_members member_group ON member_group.user_id = m.user_id \
    JOIN group_members creator_group ON creator_group.group_id = member_group.group_id \
    AND creator_group.user_id = ev.created_by WHERE ev.id = $1)) THEN 'pending' ELSE \
    'validated' END)::event_validation_status WHERE event_id = $1 AND EXISTS (SELECT 1 \
    FROM events WHERE id = $1 AND created_by IS NOT NULL)";

/// Whether user `$2` (not archived) may be assigned by `$1`: Admin and Maire assign anyone,
/// the others themselves and the members of their groups.
#[derive(Debug)]
pub struct CanAssignUserQueryView {
    params: Vec<QueryParam>,
}

impl View for CanAssignUserQueryView {
    type V = Seq<QueryParamView>;

    closed spec fn view(&self) -> Seq<QueryParamView> {
        params_view(self.params@)
    }
}

impl CanAssignUserQueryView {
    /// Whether `caller_id` may assign `user_id`.
    pub fn new(caller_id: u64, user_id: u64) -> (v: CanAssignUserQueryView)
        ensures
            v@ == seq![QueryParamView::I32(caller_id as i32), QueryParamView::I32(user_id as i32)],
    {
        let v = CanAssignUserQueryView {
            params: vec![QueryParam::I32(caller_id as i32), QueryParam::I32(user_id as i32)],
        };
        assert(v@ =~= seq![QueryParamView::I32(caller_id as i32), QueryParamView::I32(user_id as i32)]);
        v
    }

    /// The values bound to the placeholders.
    pub fn query_params(&self) -> (p: &Vec<QueryParam>)
        ensures
            params_view(p@) == self@,
    {
        &self.params
    }
}

pub const CAN_ASSIGN_USER_SQL: &'static str = "SELECT EXISTS (SELECT 1 FROM users u WHERE u.id = $2 AND COALESCE(u.is_archived, \
    false) = false AND (u.id = $1 OR EXISTS (SELECT 1 FROM user_roles ur JOIN roles r ON \
    r.id = ur.role_id WHERE ur.user_id = $1 AND r.name IN ('Admin', 'Maire')) OR EXISTS \
    (SELECT 1 FROM group_members caller_group JOIN group_members user_group ON \
    user_group.group_id = caller_group.group_id WHERE caller_group.user_id = $1 AND \
    user_group.user_id = u.id)))";

/// Adds user `$1` to event `$2`.
#[derive(Debug)]
pub struct AddUserToEventQueryView {
    params: Vec<QueryParam>,
}

impl View for AddUserToEventQueryView {
    type V = Seq<QueryParamView>;

    closed spec fn view(&self) -> Seq<QueryParamView> {
        params_view(self.params@)
    }
}

impl AddUserToEventQueryView {
    #[verifier::type_invariant]
    spec fn well_formed(self) -> bool {
        self.params@.len() == 2 && self.params@[0] is I32 && self.params@[1] is I32
    }

    /// Adds `user_id` to `event_id`.
    pub fn new(user_id: u64, event_id: u64) -> (v: AddUserToEventQueryView)
        ensures
            v@ == seq![QueryParamView::I32(user_id as i32), QueryParamView::I32(event_id as i32)],
    {
        let v = AddUserToEventQueryView {
            params: vec![QueryParam::I32(user_id as i32), QueryParam::I32(event_id as i32)],
        };
        assert(v@ =~= seq![QueryParamView::I32(user_id as i32), QueryParamView::I32(event_id as i32)]);
        v
    }

    /// The user who is added.
    pub fn user_id(&self) -> (id: u64)
        ensures
            self@.len() == 2,
            id == int_of(self@[0]) as u64,
    {
        proof {
            use_type_invariant(self);
        }
        self.params[0].as_i32() as u64
    }

    /// The event the user is added to.
    pub fn event_id(&self) -> (id: u64)
        ensures
            self@.len() == 2,
            id == int_of(self@[1]) as u64,
    {
        proof {
            use_type_invariant(self);
        }
        self.params[1].as_i32() as u64
    }

    /// The values bound to the placeholders.
    pub fn query_params(&self) -> (p: &Vec<QueryParam>)
        ensures
            params_view(p@) == self@,
    {
        &self.params
    }
}

pub const ADD_USER_TO_EVENT_SQL: &'static str = "INSERT INTO event_members (user_id, event_id) VALUES ($1, $2)";

/// Removes user `$1` from event `$2`.
#[derive(Debug)]
pub struct RemoveUserFromEventQueryView {
    user_id: u64,
    event_id: u64,
}

impl RemoveUserFromEventQueryView {
    /// The user who is removed.
    pub closed spec fn user(self) -> u64 {
        self.user_id
    }

    /// The event the user is removed from.
    pub closed spec fn event(self) -> u64 {
        self.event_id
    }

    /// Removes `user_id` from `event_id`.
    pub fn new(user_id: u64, event_id: u64) -> (v: RemoveUserFromEventQueryView)
        ensures
            v.user() == user_id,
            v.event() == event_id,
    {
        RemoveUserFromEventQueryView { user_id, event_id }
    }

    /// The user who is removed.
    pub fn user_id(&self) -> (id: u64)
        ensures
            id == self.user(),
    {
        self.user_id
    }

    /// The event the user is removed from.
    pub fn event_id(&self) -> (id: u64)
        ensures
            id == self.event(),
    {
        self.event_id
    }

    /// The values bound to the placeholders: `$1` the user, `$2` the event.
    pub fn query_params(&self) -> (p: Vec<QueryParam>)
        ensures
            params_view(p@) == seq![
                QueryParamView::I32(self.user() as i32),
                QueryParamView::I32(self.event() as i32),
            ],
    {
        let p = vec![QueryParam::I32(self.user_id as i32), QueryParam::I32(self.event_id as i32)];
        assert(params_view(p@) =~= seq![
            QueryParamView::I32(self.user() as i32),
            QueryParamView::I32(self.event() as i32),
        ]);
        p
    }
}

/// Answers one row, the removed user, per assignment removed, so that the caller can tell a
/// removal from an unknown member.
pub const REMOVE_USER_FROM_EVENT_SQL: &'static str = "DELETE FROM event_members WHERE user_id = $1 AND event_id = $2 RETURNING user_id";

/// Accepts event `event_id` for user `user_id`.
#[derive(Debug)]
pub struct AcceptEventQueryView {
    user_id: u64,
    event_id: u64,
}

impl AcceptEventQueryView {
    /// The user who accepts.
    pub closed spec fn user(self) -> u64 {
        self.user_id
    }

    /// The event that is accepted.
    pub closed spec fn event(self) -> u64 {
        self.event_id
    }

    /// Accepts `event_id` for `user_id`.
    pub fn new(user_id: u64, event_id: u64) -> (v: AcceptEventQueryView)
        ensures
            v.user() == user_id,
            v.event() == event_id,
    {
        AcceptEventQueryView { user_id, event_id }
    }
}

pub const ACCEPT_EVENT_SQL: &'static str = "UPDATE event_members SET  WHERE group_id = $1 AND user_id = $2";

} // verus!

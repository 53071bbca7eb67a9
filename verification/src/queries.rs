//! Queries on events: rights, creation, reading, update and deletion.

use crate::model::EventInput;
use crate::params::{QueryParam, QueryParamView, int_of, params_view, text_of};
use crate::time::Timestamp;
use vstd::prelude::*;

verus! {

/// The creation and the update queries read back the name of the event they write.
pub proof fn lemma_written_name_reads_back(id: u64, input: crate::model::EventInputView)
    ensures
        (seq![QueryParamView::I32(id as i32)] + input.query_params()).len() == 14,
        text_of((seq![QueryParamView::I32(id as i32)] + input.query_params())[1]) == input.name,
{
}

/// Reads, in one row, what user `$2` may do on event `$1`.
#[derive(Debug)]
pub struct EventAccessQueryView {
    params: Vec<QueryParam>,
}

impl View for EventAccessQueryView {
    type V = Seq<QueryParamView>;

    closed spec fn view(&self) -> Seq<QueryParamView> {
        params_view(self.params@)
    }
}

impl EventAccessQueryView {
    /// Reads the rights of `user_id` on `event_id`.
    pub fn new(event_id: u64, user_id: u64) -> (v: EventAccessQueryView)
        ensures
            v@ == seq![QueryParamView::I32(event_id as i32), QueryParamView::I32(user_id as i32)],
    {
        let v = EventAccessQueryView {
            params: vec![QueryParam::I32(event_id as i32), QueryParam::I32(user_id as i32)],
        };
        assert(v@ =~= seq![QueryParamView::I32(event_id as i32), QueryParamView::I32(user_id as i32)]);
        v
    }

    /// The values bound to the placeholders.
    pub fn query_params(&self) -> (p: &Vec<QueryParam>)
        ensures
            params_view(p@) == self@,
    {
        &self.params
    }
}

pub const EVENT_ACCESS_SQL: &'static str = "SELECT jsonb_build_object( 'exists', EXISTS (SELECT 1 FROM events WHERE id = $1), \
    'created_by', (SELECT created_by FROM events WHERE id = $1), 'is_member', EXISTS \
    (SELECT 1 FROM event_members WHERE event_id = $1 AND user_id = $2), 'manager_role', \
    EXISTS (SELECT 1 FROM user_roles ur JOIN roles r ON r.id = ur.role_id WHERE \
    ur.user_id = $2 AND r.name IN ('Admin', 'Maire', 'Responsable')), \
    'responsable_role', EXISTS (SELECT 1 FROM user_roles ur JOIN roles r ON r.id = \
    ur.role_id WHERE ur.user_id = $2 AND r.name = 'Responsable'), \
    'shares_group_with_creator', EXISTS (SELECT 1 FROM events ev JOIN group_members \
    creator_group ON creator_group.user_id = ev.created_by JOIN group_members \
    caller_group ON caller_group.group_id = creator_group.group_id AND \
    caller_group.user_id = $2 WHERE ev.id = $1), 'requires_approval', (EXISTS (SELECT 1 \
    FROM events ev JOIN user_roles ur ON ur.user_id = ev.created_by JOIN roles r ON r.id \
    = ur.role_id WHERE ev.id = $1 AND r.name IN ('User', 'Guest')) AND NOT EXISTS \
    (SELECT 1 FROM events ev JOIN user_roles ur ON ur.user_id = ev.created_by JOIN roles \
    r ON r.id = ur.role_id WHERE ev.id = $1 AND r.name IN ('Admin', 'Maire', \
    'Responsable')) AND EXISTS (SELECT 1 FROM events ev JOIN event_members m ON \
    m.event_id = ev.id JOIN user_roles ur ON ur.user_id = m.user_id JOIN roles r ON r.id \
    = ur.role_id AND r.name = 'Responsable' JOIN group_members member_group ON \
    member_group.user_id = m.user_id JOIN group_members creator_group ON \
    creator_group.group_id = member_group.group_id AND creator_group.user_id = \
    ev.created_by WHERE ev.id = $1)), 'approval_status', CASE WHEN EXISTS (SELECT 1 FROM \
    event_members WHERE event_id = $1 AND validation_status = 'refused') THEN 'rejected' \
    WHEN EXISTS (SELECT 1 FROM event_members WHERE event_id = $1 AND validation_status = \
    'pending') THEN 'pending' ELSE 'approved' END )";

/// Creates an event whose creator and owner is user `$1`, with its repetition rule if any,
/// and returns its identifier.
#[derive(Debug)]
pub struct CreateEventQueryView {
    params: Vec<QueryParam>,
}

impl View for CreateEventQueryView {
    type V = Seq<QueryParamView>;

    closed spec fn view(&self) -> Seq<QueryParamView> {
        params_view(self.params@)
    }
}

impl CreateEventQueryView {
    #[verifier::type_invariant]
    spec fn well_formed(self) -> bool {
        &&& self.params@.len() == 14
        &&& self.params@[0] is I32
        &&& self.params@[1] is Text
    }

    /// Creates the event `input` for `creator_id`.
    pub fn new(creator_id: u64, input: &EventInput) -> (v: CreateEventQueryView)
        ensures
            v@ == seq![QueryParamView::I32(creator_id as i32)] + input@.query_params(),
    {
        let mut params: Vec<QueryParam> = vec![QueryParam::I32(creator_id as i32)];
        let mut rest = input.query_params();
        params.append(&mut rest);
        assert(params_view(params@) =~= seq![QueryParamView::I32(creator_id as i32)]
            + input@.query_params());
        assert(params@[1]@ == QueryParamView::Text(input@.name));
        CreateEventQueryView { params }
    }

    /// The creator of the event.
    pub fn creator_id(&self) -> (id: u64)
        ensures
            self@.len() == 14,
            id == int_of(self@[0]) as u64,
    {
        proof {
            use_type_invariant(self);
        }
        self.params[0].as_i32() as u64
    }

    /// The name of the event.
    pub fn name(&self) -> (n: &str)
        ensures
            self@.len() == 14,
            n@ == text_of(self@[1]),
    {
        proof {
            use_type_invariant(self);
        }
        self.params[1].as_text()
    }

    /// The values bound to the placeholders.
    pub fn query_params(&self) -> (p: &Vec<QueryParam>)
        ensures
            params_view(p@) == self@,
    {
        &self.params
    }
}

pub const CREATE_EVENT_SQL: &'static str = "WITH rule AS ( INSERT INTO recurrence_rules (type_recurrence, intervalle, \
    days_of_week, start_date, end_date, start_time, duration, visibility, owner_id) \
    SELECT NULLIF($11, '')::recurrence_type, $12::int, string_to_array(NULLIF($13, ''), \
    ',')::smallint[], $4::timestamptz, ((NULLIF($14, '')::date + 1)::timestamp AT TIME \
    ZONE 'UTC'), ($4::timestamptz AT TIME ZONE 'UTC')::time, $5::timestamptz - \
    $4::timestamptz, NULLIF($6, '')::event_visibility, $1 WHERE $10 RETURNING id ) \
    INSERT INTO events (name, description, start_date, end_date, visibility, category, \
    service_label, location, created_by, owner_id, recurrence_id, is_exception) VALUES \
    ($2, NULLIF($3, ''), $4, $5, $6::event_visibility, $7, NULLIF($8, ''), NULLIF($9, \
    ''), $1, $1, (SELECT id FROM rule), CASE WHEN $10 THEN false END) RETURNING id";

/// Replaces the data of event `$1` and creates, updates or detaches its repetition rule;
/// answers whether the event exists. A detached rule stays until
/// `DeleteOrphanRecurrenceQueryView` removes it.
#[derive(Debug)]
pub struct EditEventQueryView {
    params: Vec<QueryParam>,
}

impl View for EditEventQueryView {
    type V = Seq<QueryParamView>;

    closed spec fn view(&self) -> Seq<QueryParamView> {
        params_view(self.params@)
    }
}

impl EditEventQueryView {
    #[verifier::type_invariant]
    spec fn well_formed(self) -> bool {
        &&& self.params@.len() == 14
        &&& self.params@[0] is I32
        &&& self.params@[1] is Text
    }

    /// Replaces the data of `event_id` by `input`.
    pub fn new(event_id: u64, input: &EventInput) -> (v: EditEventQueryView)
        ensures
            v@ == seq![QueryParamView::I32(event_id as i32)] + input@.query_params(),
    {
        let mut params: Vec<QueryParam> = vec![QueryParam::I32(event_id as i32)];
        let mut rest = input.query_params();
        params.append(&mut rest);
        assert(params_view(params@) =~= seq![QueryParamView::I32(event_id as i32)]
            + input@.query_params());
        assert(params@[1]@ == QueryParamView::Text(input@.name));
        EditEventQueryView { params }
    }

    /// The event that is updated.
    pub fn id(&self) -> (id: u64)
        ensures
            self@.len() == 14,
            id == int_of(self@[0]) as u64,
    {
        proof {
            use_type_invariant(self);
        }
        self.params[0].as_i32() as u64
    }

    /// The name of the event.
    pub fn name(&self) -> (n: &str)
        ensures
            self@.len() == 14,
            n@ == text_of(self@[1]),
    {
        proof {
            use_type_invariant(self);
        }
        self.params[1].as_text()
    }

    /// The values bound to the placeholders.
    pub fn query_params(&self) -> (p: &Vec<QueryParam>)
        ensures
            params_view(p@) == self@,
    {
        &self.params
    }
}

pub const EDIT_EVENT_SQL: &'static str = "WITH target AS ( SELECT id, recurrence_id, owner_id, owner_group_id, created_by FROM \
    events WHERE id = $1 ), updated_rule AS ( UPDATE recurrence_rules rr SET \
    (type_recurrence, intervalle, days_of_week, start_date, end_date, start_time, \
    duration, visibility) = (NULLIF($11, '')::recurrence_type, $12::int, \
    string_to_array(NULLIF($13, ''), ',')::smallint[], $4::timestamptz, ((NULLIF($14, \
    '')::date + 1)::timestamp AT TIME ZONE 'UTC'), ($4::timestamptz AT TIME ZONE \
    'UTC')::time, $5::timestamptz - $4::timestamptz, NULLIF($6, '')::event_visibility) \
    FROM target WHERE rr.id = target.recurrence_id AND $10 RETURNING rr.id ), \
    inserted_rule AS ( INSERT INTO recurrence_rules (type_recurrence, intervalle, \
    days_of_week, start_date, end_date, start_time, duration, visibility, owner_id, \
    owner_group_id) SELECT NULLIF($11, '')::recurrence_type, $12::int, \
    string_to_array(NULLIF($13, ''), ',')::smallint[], $4::timestamptz, ((NULLIF($14, \
    '')::date + 1)::timestamp AT TIME ZONE 'UTC'), ($4::timestamptz AT TIME ZONE \
    'UTC')::time, $5::timestamptz - $4::timestamptz, NULLIF($6, '')::event_visibility, \
    CASE WHEN target.owner_group_id IS NULL THEN COALESCE(target.owner_id, \
    target.created_by) END, target.owner_group_id FROM target WHERE $10 AND \
    target.recurrence_id IS NULL RETURNING id ), updated AS ( UPDATE events SET name = \
    $2, description = NULLIF($3, ''), start_date = $4, end_date = $5, visibility = \
    $6::event_visibility, category = $7, service_label = NULLIF($8, ''), location = \
    NULLIF($9, ''), recurrence_id = CASE WHEN $10 THEN COALESCE((SELECT id FROM \
    updated_rule), (SELECT id FROM inserted_rule)) END, is_exception = CASE WHEN $10 \
    THEN false END WHERE id = $1 RETURNING id ) SELECT EXISTS (SELECT 1 FROM updated)";

/// Deletes event `$1`.
#[derive(Debug)]
pub struct DeleteEventQueryView {
    params: Vec<QueryParam>,
}

impl View for DeleteEventQueryView {
    type V = Seq<QueryParamView>;

    closed spec fn view(&self) -> Seq<QueryParamView> {
        params_view(self.params@)
    }
}

impl DeleteEventQueryView {
    #[verifier::type_invariant]
    spec fn well_formed(self) -> bool {
        self.params@.len() == 1 && self.params@[0] is I32
    }

    /// Deletes `event_id`.
    pub fn new(event_id: u64) -> (v: DeleteEventQueryView)
        ensures
            v@ == seq![QueryParamView::I32(event_id as i32)],
    {
        let v = DeleteEventQueryView { params: vec![QueryParam::I32(event_id as i32)] };
        assert(v@ =~= seq![QueryParamView::I32(event_id as i32)]);
        v
    }

    /// The event that is deleted.
    pub fn event_id(&self) -> (id: u64)
        ensures
            self@.len() == 1,
            id == int_of(self@[0]) as u64,
    {
        proof {
            use_type_invariant(self);
        }
        self.params[0].as_i32() as u64
    }

    /// The values bound to the placeholders.
    pub fn query_params(&self) -> (p: &Vec<QueryParam>)
        ensures
            params_view(p@) == self@,
    {
        &self.params
    }
}

pub const DELETE_EVENT_SQL: &'static str = "DELETE FROM events WHERE id = $1";

/// Deletes repetition rule `$1` once no event is attached to it.
#[derive(Debug)]
pub struct DeleteOrphanRecurrenceQueryView {
    params: Vec<QueryParam>,
}

impl View for DeleteOrphanRecurrenceQueryView {
    type V = Seq<QueryParamView>;

    closed spec fn view(&self) -> Seq<QueryParamView> {
        params_view(self.params@)
    }
}

impl DeleteOrphanRecurrenceQueryView {
    /// Deletes the rule `recurrence_id` if no event uses it.
    pub fn new(recurrence_id: u64) -> (v: DeleteOrphanRecurrenceQueryView)
        ensures
            v@ == seq![QueryParamView::I32(recurrence_id as i32)],
    {
        let v = DeleteOrphanRecurrenceQueryView { params: vec![QueryParam::I32(recurrence_id as i32)] };
        assert(v@ =~= seq![QueryParamView::I32(recurrence_id as i32)]);
        v
    }

    /// The values bound to the placeholders.
    pub fn query_params(&self) -> (p: &Vec<QueryParam>)
        ensures
            params_view(p@) == self@,
    {
        &self.params
    }
}

pub const DELETE_ORPHAN_RECURRENCE_SQL: &'static str = "DELETE FROM recurrence_rules rr WHERE rr.id = $1 AND NOT EXISTS (SELECT 1 FROM \
    events e WHERE e.recurrence_id = rr.id)";

/// Reads event `$1`, with its repetition rule as JSON.
#[derive(Debug)]
pub struct GetEventQueryView {
    params: Vec<QueryParam>,
}

impl View for GetEventQueryView {
    type V = Seq<QueryParamView>;

    closed spec fn view(&self) -> Seq<QueryParamView> {
        params_view(self.params@)
    }
}

impl GetEventQueryView {
    #[verifier::type_invariant]
    spec fn well_formed(self) -> bool {
        self.params@.len() == 1 && self.params@[0] is I32
    }

    /// Reads event `id`.
    pub fn new(id: u64) -> (v: GetEventQueryView)
        ensures
            v@ == seq![QueryParamView::I32(id as i32)],
    {
        let v = GetEventQueryView { params: vec![QueryParam::I32(id as i32)] };
        assert(v@ =~= seq![QueryParamView::I32(id as i32)]);
        v
    }

    /// The event that is read.
    pub fn id(&self) -> (id: u64)
        ensures
            self@.len() == 1,
            id == int_of(self@[0]) as u64,
    {
        proof {
            use_type_invariant(self);
        }
        self.params[0].as_i32() as u64
    }

    /// The values bound to the placeholders.
    pub fn query_params(&self) -> (p: &Vec<QueryParam>)
        ensures
            params_view(p@) == self@,
    {
        &self.params
    }
}

pub const GET_EVENT_SQL: &'static str = "SELECT to_jsonb(t) FROM ( SELECT e.name, e.description, e.created_by, \
    e.recurrence_id, e.start_date, e.end_date, e.owner_id, e.visibility, e.category, \
    e.service_label AS service, e.location, CASE WHEN rr.id IS NULL THEN NULL ELSE \
    jsonb_build_object( 'frequency', rr.type_recurrence::text, 'interval', \
    rr.intervalle, 'days_of_week', to_jsonb(rr.days_of_week), 'ends_on', \
    to_char((rr.end_date AT TIME ZONE 'UTC') - interval '1 day', 'YYYY-MM-DD')) END AS \
    recurrence FROM events e LEFT JOIN recurrence_rules rr ON rr.id = e.recurrence_id \
    WHERE e.id = $1 ) t";

/// Reads the calendar of user `user_id` over `start`..=`end`: the events the user owns or is
/// assigned to that overlap the period, and the repeated ones whose rule still runs after
/// `start`, each with whether the user is assigned and its repetition rule.
#[derive(Debug)]
pub struct GetCalendarQueryView {
    start: Timestamp,
    end: Timestamp,
    user_id: u64,
}

impl GetCalendarQueryView {
    /// Start of the period.
    pub closed spec fn from(self) -> Timestamp {
        self.start
    }

    /// End of the period.
    pub closed spec fn until(self) -> Timestamp {
        self.end
    }

    /// The user whose calendar is read.
    pub closed spec fn user(self) -> u64 {
        self.user_id
    }

    /// Reads the events of `user_id` between `start` and `end`.
    pub fn new(start: Timestamp, end: Timestamp, user_id: u64) -> (v: GetCalendarQueryView)
        ensures
            v.from() == start,
            v.until() == end,
            v.user() == user_id,
    {
        GetCalendarQueryView { start, end, user_id }
    }

    /// Start of the period.
    pub fn start(&self) -> (t: Timestamp)
        ensures
            t == self.from(),
    {
        self.start
    }

    /// End of the period.
    pub fn end(&self) -> (t: Timestamp)
        ensures
            t == self.until(),
    {
        self.end
    }

    /// The user whose calendar is read.
    pub fn user_id(&self) -> (id: u64)
        ensures
            id == self.user(),
    {
        self.user_id
    }

    /// The values bound to the placeholders: `$1` the start, `$2` the end, `$3` the user.
    pub fn query_params(&self) -> (p: Vec<QueryParam>)
        ensures
            params_view(p@) == seq![
                QueryParamView::DateTime(self.from()),
                QueryParamView::DateTime(self.until()),
                QueryParamView::I32(self.user() as i32),
            ],
    {
        let p = vec![
            QueryParam::DateTime(self.start),
            QueryParam::DateTime(self.end),
            QueryParam::I32(self.user_id as i32),
        ];
        assert(params_view(p@) =~= seq![
            QueryParamView::DateTime(self.from()),
            QueryParamView::DateTime(self.until()),
            QueryParamView::I32(self.user() as i32),
        ]);
        p
    }
}

pub const GET_CALENDAR_SQL: &'static str = "SELECT to_jsonb(t) FROM ( SELECT e.id, e.name, e.start_date, \
    e.end_date, EXISTS (SELECT 1 FROM event_members em WHERE em.event_id = e.id AND \
    em.user_id = $3) AS is_member, e.category, e.service_label AS service, e.location, \
    CASE WHEN rr.id IS NULL THEN NULL ELSE jsonb_build_object( 'frequency', \
    rr.type_recurrence::text, 'interval', rr.intervalle, 'days_of_week', \
    to_jsonb(rr.days_of_week), 'ends_on', to_char((rr.end_date AT TIME ZONE 'UTC') - \
    interval '1 day', 'YYYY-MM-DD')) END AS recurrence FROM events e LEFT JOIN \
    recurrence_rules rr ON rr.id = e.recurrence_id WHERE (e.owner_id = $3 OR EXISTS \
    (SELECT 1 FROM event_members em WHERE em.event_id = e.id AND em.user_id = $3)) AND \
    e.start_date <= $2 AND (e.end_date >= $1 OR (rr.id IS NOT NULL AND (rr.end_date IS \
    NULL OR rr.end_date > $1))) ) t";

} // verus!

//! A member's own answer to an event: validated or refused.

use crate::params::{QueryParam, QueryParamView, int_of, params_view, text_of};
use vstd::prelude::*;
use vstd::string::*;

verus! {

/// Answer of a member to an event: `validated` or `refused`.
#[derive(Clone, Copy, Debug, PartialEq, Eq, Structural)]
pub enum EventValidationStatus {
    Validated,
    Refused,
}

impl EventValidationStatus {
    /// The value of the `event_validation_status` database type.
    pub open spec fn name(self) -> Seq<char> {
        match self {
            EventValidationStatus::Validated => "validated"@,
            EventValidationStatus::Refused => "refused"@,
        }
    }

    /// The answer named `text`; any other text reads as `Validated`.
    pub open spec fn parsed(text: Seq<char>) -> EventValidationStatus {
        if text == "refused"@ {
            EventValidationStatus::Refused
        } else {
            EventValidationStatus::Validated
        }
    }

    /// The answer named `text`; any other text reads as `Validated`.
    pub fn parse(text: &str) -> (s: EventValidationStatus)
        ensures
            s == EventValidationStatus::parsed(text@),
    {
        if crate::text::same_text(text, "refused") {
            EventValidationStatus::Refused
        } else {
            EventValidationStatus::Validated
        }
    }

    /// The value of the `event_validation_status` database type.
    pub fn as_str(&self) -> (s: &'static str)
        ensures
            s@ == self.name(),
    {
        proof {
            reveal_strlit("validated");
            reveal_strlit("refused");
        }
        match self {
            EventValidationStatus::Validated => "validated",
            EventValidationStatus::Refused => "refused",
        }
    }

    /// The value of the `event_validation_status` database type, as an owned text.
    pub fn to_string(&self) -> (s: String)
        ensures
            s@ == self.name(),
    {
        String::from_str(self.as_str())
    }
}

impl From<String> for EventValidationStatus {
    fn from(s: String) -> (r: EventValidationStatus) {
        EventValidationStatus::parse(s.as_str())
    }
}

impl vstd::std_specs::convert::FromSpecImpl<String> for EventValidationStatus {
    open spec fn obeys_from_spec() -> bool {
        true
    }

    open spec fn from_spec(v: String) -> EventValidationStatus {
        EventValidationStatus::parsed(v@)
    }
}

/// Reading back the name of an answer gives the answer.
pub proof fn lemma_answer_name_round_trip(status: EventValidationStatus)
    ensures
        EventValidationStatus::parsed(status.name()) == status,
{
    reveal_strlit("validated");
    reveal_strlit("refused");
    assert("validated"@[0] != "refused"@[0]);
}

/// Records the answer `$1` of user `$3` to event `$2`.
#[derive(Debug)]
pub struct EventStatusUpdateQueryView {
    params: Vec<QueryParam>,
}

impl View for EventStatusUpdateQueryView {
    type V = Seq<QueryParamView>;

    closed spec fn view(&self) -> Seq<QueryParamView> {
        params_view(self.params@)
    }
}

impl EventStatusUpdateQueryView {
    #[verifier::type_invariant]
    spec fn well_formed(self) -> bool {
        &&& self.params@.len() == 3
        &&& self.params@[0] is Text
        &&& self.params@[1] is I32
        &&& self.params@[2] is I32
    }

    /// Records the answer `status` of `user_id` to `event_id`.
    pub fn new(user_id: u64, event_id: u64, status: EventValidationStatus) -> (v:
        EventStatusUpdateQueryView)
        ensures
            v@ == seq![
                QueryParamView::Text(status.name()),
                QueryParamView::I32(event_id as i32),
                QueryParamView::I32(user_id as i32),
            ],
    {
        let v = EventStatusUpdateQueryView {
            params: vec![
                QueryParam::Text(status.to_string()),
                QueryParam::I32(event_id as i32),
                QueryParam::I32(user_id as i32),
            ],
        };
        assert(v@ =~= seq![
            QueryParamView::Text(status.name()),
            QueryParamView::I32(event_id as i32),
            QueryParamView::I32(user_id as i32),
        ]);
        v
    }

    /// The answer recorded.
    pub fn status(&self) -> (s: EventValidationStatus)
        ensures
            self@.len() == 3,
            s == EventValidationStatus::parsed(text_of(self@[0])),
    {
        proof {
            use_type_invariant(self);
        }
        EventValidationStatus::parse(self.params[0].as_text())
    }

    /// The event answered.
    pub fn event_id(&self) -> (id: u64)
        ensures
            self@.len() == 3,
            id == int_of(self@[1]) as u64,
    {
        proof {
            use_type_invariant(self);
        }
        self.params[1].as_i32() as u64
    }

    /// The user who answers.
    pub fn user_id(&self) -> (id: u64)
        ensures
            self@.len() == 3,
            id == int_of(self@[2]) as u64,
    {
        proof {
            use_type_invariant(self);
        }
        self.params[2].as_i32() as u64
    }

    /// The values bound to the placeholders.
    pub fn query_params(&self) -> (p: &Vec<QueryParam>)
        ensures
            params_view(p@) == self@,
    {
        &self.params
    }
}

pub const EVENT_STATUS_UPDATE_SQL: &'static str = "UPDATE event_members SET validation_status = $1::event_validation_status WHERE \
    event_id = $2 AND user_id = $3";

} // verus!

//! Path parameters of the removal of a member.

use vstd::prelude::*;

verus! {

/// Why the parameters of a member removal are refused.
#[derive(Clone, Copy, Debug, PartialEq, Eq, Structural)]
pub enum RemoveMemberError {
    UnknownEvent,
    UnknownMember,
}

/// The event and the member of a removal, as received.
#[derive(Debug)]
pub struct DeleteMemberParams {
    event_id: Option<String>,
    member_id: Option<String>,
}

impl DeleteMemberParams {
    /// The event received.
    pub closed spec fn event(self) -> Option<String> {
        self.event_id
    }

    /// The member received.
    pub closed spec fn member(self) -> Option<String> {
        self.member_id
    }

    /// Makes the parameters.
    pub fn new(event_id: Option<String>, member_id: Option<String>) -> (p: DeleteMemberParams)
        ensures
            p.event() == event_id,
            p.member() == member_id,
    {
        DeleteMemberParams { event_id, member_id }
    }

    /// The event received.
    pub fn event_id(&self) -> (e: &Option<String>)
        ensures
            *e == self.event(),
    {
        &self.event_id
    }

    /// The member received.
    pub fn member_id(&self) -> (m: &Option<String>)
        ensures
            *m == self.member(),
    {
        &self.member_id
    }

    /// Accepts the parameters when both are present: `UnknownEvent` without an event,
    /// otherwise `UnknownMember` without a member.
    pub fn checked(self) -> (r: Result<DeleteMemberParams, RemoveMemberError>)
        ensures
            self.event() is None ==> r == Err::<DeleteMemberParams, RemoveMemberError>(
                RemoveMemberError::UnknownEvent,
            ),
            self.event() is Some && self.member() is None ==> r == Err::<
                DeleteMemberParams,
                RemoveMemberError,
            >(RemoveMemberError::UnknownMember),
            self.event() is Some && self.member() is Some ==> r == Ok::<
                DeleteMemberParams,
                RemoveMemberError,
            >(self),
    {
        if self.event_id.is_none() {
            return Err(RemoveMemberError::UnknownEvent);
        }
        if self.member_id.is_none() {
            return Err(RemoveMemberError::UnknownMember);
        }
        Ok(self)
    }
}

} // verus!

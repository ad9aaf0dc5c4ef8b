use vstd::prelude::*;

use crate::project::member_id::MemberId;
use crate::project::member_role::MemberRole;
use crate::user::user_id::UserId;

verus! {

/// One membership record: an immutable triple of record identity, user, and
/// role, owned by exactly one membership registry.
#[derive(Debug, Clone, Copy, PartialEq, Eq, Structural)]
pub struct Member {
    id: MemberId,
    user_id: UserId,
    role: MemberRole,
}

impl Member {
    /// The identity of this membership record.
    pub closed spec fn spec_id(self) -> MemberId {
        self.id
    }

    /// The user this record belongs to.
    pub closed spec fn spec_user_id(self) -> UserId {
        self.user_id
    }

    /// The role this record grants.
    pub closed spec fn spec_role(self) -> MemberRole {
        self.role
    }

    pub fn new(id: MemberId, user_id: UserId, role: MemberRole) -> (r: Self)
        ensures
            r.spec_id() == id,
            r.spec_user_id() == user_id,
            r.spec_role() == role,
    {
        Member { id, user_id, role }
    }

    /// Deliberately reads past the record's encapsulation, for event
    /// construction and replay.
    pub fn breach_encapsulation_of_id(&self) -> (r: MemberId)
        ensures
            r == self.spec_id(),
    {
        self.id
    }

    /// Deliberately reads past the record's encapsulation, for event
    /// construction and replay.
    pub fn breach_encapsulation_of_user_id(&self) -> (r: UserId)
        ensures
            r == self.spec_user_id(),
    {
        self.user_id
    }

    /// Deliberately reads past the record's encapsulation, for event
    /// construction and replay.
    pub fn breach_encapsulation_of_role(&self) -> (r: MemberRole)
        ensures
            r == self.spec_role(),
    {
        self.role
    }
}

} // verus!

use vstd::prelude::*;

use crate::helper::ParseError;

verus! {

/// The role a member holds within a project: exactly one per membership record.
#[derive(Debug, Clone, Copy, PartialEq, Eq, Structural)]
pub enum MemberRole {
    Admin,
    Member,
}

impl MemberRole {
    /// Reads a role from its canonical rendering: exactly "Admin" or "Member".
    pub fn from_string(s: &String) -> (r: Result<MemberRole, ParseError>)
        ensures
            r == Ok::<MemberRole, ParseError>(MemberRole::Admin) <==> s@ == "Admin"@,
            r == Ok::<MemberRole, ParseError>(MemberRole::Member) <==> s@ == "Member"@,
            r is Err <==> s@ != "Admin"@ && s@ != "Member"@,
    {
        proof {
            reveal_strlit("Admin");
            reveal_strlit("Member");
            assert("Admin"@.len() == 5);
            assert("Member"@.len() == 6);
        }
        if s.eq(&String::from_str("Admin")) {
            Ok(MemberRole::Admin)
        } else if s.eq(&String::from_str("Member")) {
            Ok(MemberRole::Member)
        } else {
            Err(ParseError::InvalidMemberRole)
        }
    }

    /// The canonical rendering of the role.
    pub fn to_string(&self) -> (r: String)
        ensures
            *self == MemberRole::Admin ==> r@ == "Admin"@,
            *self == MemberRole::Member ==> r@ == "Member"@,
    {
        match self {
            MemberRole::Admin => String::from_str("Admin"),
            MemberRole::Member => String::from_str("Member"),
        }
    }
}

} // verus!

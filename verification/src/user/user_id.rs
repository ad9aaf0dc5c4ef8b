use vstd::prelude::*;

use crate::helper::{
    spec_strip_prefix, str_eq, ulid_of_str, ulid_parse, ulid_str_of, ulid_string, IdGenerator,
    ParseError,
};

verus! {

/// The identity of one user, shared by every project that user belongs to.
#[derive(Debug, Clone, Copy, PartialEq, Eq, Hash, Structural)]
pub struct UserId {
    value: u128,
}

impl UserId {
    /// The underlying 128-bit identifier value.
    pub closed spec fn spec_value(self) -> u128 {
        self.value
    }

    /// Allocates a fresh user identifier from the given generator.
    pub fn new(idgen: &mut IdGenerator) -> (r: Self)
        ensures
            final(idgen).last_issued() == Some(r.spec_value()),
    {
        UserId { value: idgen.generate() }
    }

    /// Wraps an identifier value already allocated elsewhere.
    pub fn from_ulid(value: u128) -> (r: Self)
        ensures
            r.spec_value() == value,
    {
        UserId { value }
    }

    /// The underlying 128-bit identifier value.
    pub fn value(&self) -> (r: u128)
        ensures
            r == self.spec_value(),
    {
        self.value
    }

    /// The type prefix that disambiguates user identifiers in logs and
    /// storage keys.
    pub fn prefix(&self) -> (r: String)
        ensures
            r@ == "User"@,
    {
        String::from_str("User")
    }

    /// Reads an identifier back from text: the "User" type prefix and one
    /// separator character are stripped when present, and the rest is read as
    /// Crockford base32.
    pub fn from_str(s: &str) -> (r: Result<UserId, ParseError>)
        ensures
            r matches Ok(id) ==> ulid_of_str(spec_strip_prefix(s@, "User"@)) == Some(
                id.spec_value(),
            ),
            r is Err <==> ulid_of_str(spec_strip_prefix(s@, "User"@)) is None,
            r matches Err(e) ==> e is InvalidULID,
    {
        let n = s.unicode_len();
        let stripped: &str = if n >= 5 && str_eq(s.substring_char(0, 4), "User") {
            s.substring_char(5, n)
        } else {
            s
        };
        proof {
            reveal_strlit("User");
            assert(stripped@ =~= spec_strip_prefix(s@, "User"@));
        }
        match ulid_parse(stripped) {
            Ok(value) => Ok(UserId { value }),
            Err(error) => Err(ParseError::InvalidULID(error)),
        }
    }

    /// The canonical rendering: the type prefix, a dash, and the identifier.
    pub fn to_string(&self) -> (r: String)
        ensures
            r@ == "User-"@ + ulid_str_of(self.spec_value()),
    {
        let mut s = String::from_str("User-");
        let v = ulid_string(self.value);
        s.append(v.as_str());
        s
    }
}

} // verus!

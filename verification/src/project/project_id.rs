use vstd::prelude::*;

use crate::helper::{
    spec_strip_prefix, str_eq, ulid_of_str, ulid_parse, ulid_str_of, ulid_string, IdGenerator,
    ParseError,
};

verus! {

/// The identity of one project aggregate, stable for its whole lifetime.
#[derive(Debug, Clone, Copy, PartialEq, Eq, Hash, Structural)]
pub struct ProjectId {
    value: u128,
}

impl ProjectId {
    /// The underlying 128-bit identifier value.
    pub closed spec fn spec_value(self) -> u128 {
        self.value
    }

    /// Allocates a fresh project identifier from the given generator.
    pub fn new(idgen: &mut IdGenerator) -> (r: Self)
        ensures
            final(idgen).last_issued() == Some(r.spec_value()),
    {
        ProjectId { value: idgen.generate() }
    }

    /// Wraps an identifier value already allocated elsewhere.
    pub fn from_ulid(value: u128) -> (r: Self)
        ensures
            r.spec_value() == value,
    {
        ProjectId { value }
    }

    /// The underlying 128-bit identifier value.
    pub fn value(&self) -> (r: u128)
        ensures
            r == self.spec_value(),
    {
        self.value
    }

    /// The type prefix that disambiguates project identifiers in logs and
    /// storage keys.
    pub fn prefix(&self) -> (r: String)
        ensures
            r@ == "Project"@,
    {
        String::from_str("Project")
    }

    /// Reads an identifier back from text: the "Project" type prefix and one
    /// separator character are stripped when present, and the rest is read as
    /// Crockford base32.
    pub fn from_str(s: &str) -> (r: Result<ProjectId, ParseError>)
        ensures
            r matches Ok(id) ==> ulid_of_str(spec_strip_prefix(s@, "Project"@)) == Some(
                id.spec_value(),
            ),
            r is Err <==> ulid_of_str(spec_strip_prefix(s@, "Project"@)) is None,
            r matches Err(e) ==> e is InvalidULID,
    {
        let n = s.unicode_len();
        let stripped: &str = if n >= 8 && str_eq(s.substring_char(0, 7), "Project") {
            s.substring_char(8, n)
        } else {
            s
        };
        proof {
            reveal_strlit("Project");
            assert(stripped@ =~= spec_strip_prefix(s@, "Project"@));
        }
        match ulid_parse(stripped) {
            Ok(value) => Ok(ProjectId { value }),
            Err(error) => Err(ParseError::InvalidULID(error)),
        }
    }

    /// The canonical rendering: the type prefix, a dash, and the identifier.
    pub fn to_string(&self) -> (r: String)
        ensures
            r@ == "Project-"@ + ulid_str_of(self.spec_value()),
    {
        let mut s = String::from_str("Project-");
        let v = ulid_string(self.value);
        s.append(v.as_str());
        s
    }
}

} // verus!

use vstd::prelude::*;

use crate::helper::{ulid_of_str, ulid_parse, ulid_str_of, ulid_string, IdGenerator, ParseError};

verus! {

/// The identity of one membership record, allocated fresh per record.
#[derive(Debug, Clone, Copy, PartialEq, Eq, Hash, Structural)]
pub struct MemberId {
    value: u128,
}

impl MemberId {
    /// The underlying 128-bit identifier value.
    pub closed spec fn spec_value(self) -> u128 {
        self.value
    }

    /// Allocates a fresh member identifier from the given generator.
    pub fn new(idgen: &mut IdGenerator) -> (r: Self)
        ensures
            final(idgen).last_issued() == Some(r.spec_value()),
    {
        MemberId { value: idgen.generate() }
    }

    /// Wraps an identifier value already allocated elsewhere.
    pub fn from_ulid(value: u128) -> (r: Self)
        ensures
            r.spec_value() == value,
    {
        MemberId { value }
    }

    /// The underlying 128-bit identifier value.
    pub fn value(&self) -> (r: u128)
        ensures
            r == self.spec_value(),
    {
        self.value
    }

    /// Reads an identifier back from its Crockford base32 rendering.
    pub fn from_str(s: &str) -> (r: Result<MemberId, ParseError>)
        ensures
            r matches Ok(id) ==> ulid_of_str(s@) == Some(id.spec_value()),
            r is Err <==> ulid_of_str(s@) is None,
            r matches Err(e) ==> e is InvalidULID,
    {
        match ulid_parse(s) {
            Ok(value) => Ok(MemberId { value }),
            Err(error) => Err(ParseError::InvalidULID(error)),
        }
    }

    /// The canonical rendering of the identifier.
    pub fn to_string(&self) -> (r: String)
        ensures
            r@ == ulid_str_of(self.spec_value()),
    {
        ulid_string(self.value)
    }
}

} // verus!

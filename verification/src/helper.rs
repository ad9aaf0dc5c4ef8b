use vstd::prelude::*;
use vstd::string::StringSliceAdditionalSpecFns;

verus! {

#[verifier::external_type_specification]
#[verifier::external_body]
pub struct ExULIDGenerator(ulid_generator_rs::ULIDGenerator);

#[verifier::external_type_specification]
#[verifier::external_body]
pub struct ExULIDError(ulid_generator_rs::ULIDError);

/// Relies on `ULIDGenerator::new`: a fresh generator over the thread's random
/// source. Nothing is promised of it.
#[verifier::external_body]
fn ulid_generator_new() -> ulid_generator_rs::ULIDGenerator {
    ulid_generator_rs::ULIDGenerator::new()
}

/// Relies on `ULIDGenerator::generate`: a ULID built from the current time and
/// random bits, read back as the underlying 128-bit value. The value depends on
/// the clock and the random source, so nothing is promised of it. A timestamp
/// overflow (far future clock) is a fatal condition and aborts, as the
/// identifier allocator's contract allows.
#[verifier::external_body]
fn fresh_ulid(g: &mut ulid_generator_rs::ULIDGenerator) -> u128 {
    let id = g.generate().unwrap();
    let bytes: [u8; 16] = id
        .to_byte_array(ulid_generator_rs::Endian::BE)
        .try_into()
        .unwrap();
    u128::from_be_bytes(bytes)
}

/// Relies on `ULIDGenerator::generate_strictly_monotonic`: it returns a value
/// only when the freshly generated ULID does not compare below the previous
/// one; otherwise it reports `None`. A timestamp overflow (far future clock) is
/// a fatal condition and aborts, as the identifier allocator's contract allows.
#[verifier::external_body]
fn next_ulid(g: &mut ulid_generator_rs::ULIDGenerator, previous: u128) -> (r: Option<u128>)
    ensures
        r matches Some(v) ==> v >= previous,
{
    let prev = ulid_generator_rs::ULID::new(previous);
    match g.generate_strictly_monotonic(&prev).unwrap() {
        Some(id) => {
            let bytes: [u8; 16] = id
                .to_byte_array(ulid_generator_rs::Endian::BE)
                .try_into()
                .unwrap();
            Some(u128::from_be_bytes(bytes))
        },
        None => None,
    }
}

/// Allocates identifiers that are unique and strictly increasing within one
/// generator instance: the generator remembers the identifier it issued last
/// and derives the next one from it whenever the underlying source does not
/// advance on its own.
pub struct IdGenerator {
    generator: ulid_generator_rs::ULIDGenerator,
    last_id: Option<u128>,
}

impl IdGenerator {
    /// The identifier issued by the most recent `generate` call, if any.
    pub closed spec fn last_issued(self) -> Option<u128> {
        self.last_id
    }

    pub fn new() -> (r: Self)
        ensures
            r.last_issued() is None,
    {
        IdGenerator { generator: ulid_generator_new(), last_id: None }
    }

    /// Issues the next identifier: strictly greater than the previous one
    /// whenever a previous one exists. At the greatest possible identifier no
    /// strictly greater value exists; there the generator hands back what the
    /// source gave and the contract promises nothing of it.
    pub fn generate(&mut self) -> (r: u128)
        ensures
            final(self).last_issued() == Some(r),
            old(self).last_issued() matches Some(l) ==> l < u128::MAX ==> r > l,
    {
        let id: u128 = match self.last_id {
            None => fresh_ulid(&mut self.generator),
            Some(l) => {
                let candidate = next_ulid(&mut self.generator, l);
                match candidate {
                    Some(v) => {
                        if v > l {
                            v
                        } else if l < u128::MAX {
                            l + 1
                        } else {
                            v
                        }
                    },
                    None => {
                        if l < u128::MAX {
                            l + 1
                        } else {
                            fresh_ulid(&mut self.generator)
                        }
                    },
                }
            },
        };
        self.last_id = Some(id);
        id
    }
}

/// The Crockford base32 rendering of a 128-bit identifier, a function of the
/// value alone.
pub uninterp spec fn ulid_str_of(value: u128) -> Seq<char>;

/// Relies on `ULID::to_string`: the canonical 26-character Crockford base32
/// rendering of the 128-bit value, which depends on the value alone.
#[verifier::external_body]
pub(crate) fn ulid_string(value: u128) -> (r: String)
    ensures
        r@ == ulid_str_of(value),
        r@.len() == 26,
{
    ulid_generator_rs::ULID::new(value).to_string()
}

/// The value a Crockford base32 text denotes, if it denotes one: a function
/// of the text alone.
pub uninterp spec fn ulid_of_str(s: Seq<char>) -> Option<u128>;

/// Relies on `ULID::from_str`: the Crockford base32 reading of the text,
/// which depends on the text alone; text whose encoded form is not exactly
/// 26 bytes is refused.
#[verifier::external_body]
pub(crate) fn ulid_parse(s: &str) -> (r: Result<u128, ulid_generator_rs::ULIDError>)
    ensures
        r matches Ok(v) ==> ulid_of_str(s@) == Some(v),
        r is Err <==> ulid_of_str(s@) is None,
        s.spec_bytes().len() != 26 ==> r is Err,
{
    match s.parse::<ulid_generator_rs::ULID>() {
        Ok(id) => {
            let bytes: [u8; 16] = id
                .to_byte_array(ulid_generator_rs::Endian::BE)
                .try_into()
                .unwrap();
            Ok(u128::from_be_bytes(bytes))
        },
        Err(error) => Err(error),
    }
}

/// The identifier text with its type prefix and one separator character
/// removed, when the text carries them; otherwise the text as it came.
pub open spec fn spec_strip_prefix(s: Seq<char>, prefix: Seq<char>) -> Seq<char> {
    if s.len() > prefix.len() && s.subrange(0, prefix.len() as int) == prefix {
        s.skip(prefix.len() as int + 1)
    } else {
        s
    }
}

/// Relies on uuid's `Uuid::new_v4`, rendered in the canonical hyphenated
/// form of 36 characters. The value is random, so nothing more is promised.
#[verifier::external_body]
pub(crate) fn new_uuid_string() -> (r: String)
    ensures
        r@.len() == 36,
{
    uuid::Uuid::new_v4().to_string()
}

/// Whether two pieces of text hold the same characters.
pub fn str_eq(a: &str, b: &str) -> (r: bool)
    ensures
        r == (a@ == b@),
{
    let n = a.unicode_len();
    if n != b.unicode_len() {
        return false;
    }
    let mut i: usize = 0;
    while i < n
        invariant
            i <= n,
            n == a@.len(),
            n == b@.len(),
            forall|j: int| 0 <= j < i ==> a@[j] == b@[j],
        decreases n - i,
    {
        if a.get_char(i) != b.get_char(i) {
            return false;
        }
        i = i + 1;
    }
    proof {
        assert(a@ =~= b@);
    }
    true
}

/// The failure of turning outside text into a value of the domain.
#[derive(Debug, PartialEq)]
pub enum ParseError {
    /// The text does not read as an identifier.
    InvalidULID(ulid_generator_rs::ULIDError),
    /// The text names no known member role.
    InvalidMemberRole,
}

} // verus!

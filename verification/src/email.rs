use vstd::prelude::*;
use vstd::string::StringSliceAdditionalSpecFns;

verus! {

/// The characters allowed before the separator of an address.
pub open spec fn is_email_local_char(c: char) -> bool {
    ('a' <= c && c <= 'z') || ('A' <= c && c <= 'Z') || ('0' <= c && c <= '9') || c == '.' || c
        == '!' || c == '#' || c == '$' || c == '%' || c == '&' || c == '\'' || c == '*' || c == '+'
        || c == '/' || c == '=' || c == '?' || c == '^' || c == '_' || c == '`' || c == '{' || c
        == '|' || c == '}' || c == '~' || c == '-'
}

/// The characters allowed inside a domain label.
pub open spec fn is_email_domain_char(c: char) -> bool {
    ('a' <= c && c <= 'z') || ('A' <= c && c <= 'Z') || ('0' <= c && c <= '9') || c == '-'
}

/// A non-empty run of local characters.
pub open spec fn is_valid_email_local(s: Seq<char>) -> bool {
    s.len() > 0 && forall|i: int| 0 <= i < s.len() ==> is_email_local_char(#[trigger] s[i])
}

/// One or more non-empty labels of domain characters, separated by dots.
pub open spec fn is_valid_email_domain(s: Seq<char>) -> bool {
    &&& s.len() > 0
    &&& s[0] != '.'
    &&& s[s.len() - 1] != '.'
    &&& forall|i: int| 0 <= i < s.len() ==> is_email_domain_char(#[trigger] s[i]) || s[i] == '.'
    &&& forall|i: int| 0 <= i < s.len() - 1 ==> !(#[trigger] s[i] == '.' && s[i + 1] == '.')
}

/// A well-formed address: a local part, one separator, and a domain.
pub open spec fn is_valid_email(s: Seq<char>) -> bool {
    exists|at: int|
        0 <= at < s.len() && s[at] == '@' && is_valid_email_local(s.subrange(0, at))
            && is_valid_email_domain(s.subrange(at + 1, s.len() as int))
}

/// The separator of a well-formed address can only be its first `@`.
proof fn lemma_email_valid_at_first_at(s: Seq<char>, at: int)
    requires
        0 <= at < s.len(),
        s[at] == '@',
        forall|i: int| 0 <= i < at ==> s[i] != '@',
    ensures
        is_valid_email(s) <==> (is_valid_email_local(s.subrange(0, at)) && is_valid_email_domain(
            s.subrange(at + 1, s.len() as int),
        )),
{
    if is_valid_email(s) {
        let a = choose|a: int|
            0 <= a < s.len() && s[a] == '@' && is_valid_email_local(s.subrange(0, a))
                && is_valid_email_domain(s.subrange(a + 1, s.len() as int));
        if a > at {
            assert(s.subrange(0, a)[at] == s[at]);
            assert(!is_email_local_char('@'));
        }
        assert(a == at);
    }
}

fn email_local_char(c: char) -> (r: bool)
    ensures
        r == is_email_local_char(c),
{
    ('a' <= c && c <= 'z') || ('A' <= c && c <= 'Z') || ('0' <= c && c <= '9') || c == '.' || c
        == '!' || c == '#' || c == '$' || c == '%' || c == '&' || c == '\'' || c == '*' || c == '+'
        || c == '/' || c == '=' || c == '?' || c == '^' || c == '_' || c == '`' || c == '{' || c
        == '|' || c == '}' || c == '~' || c == '-'
}

fn email_domain_char(c: char) -> (r: bool)
    ensures
        r == is_email_domain_char(c),
{
    ('a' <= c && c <= 'z') || ('A' <= c && c <= 'Z') || ('0' <= c && c <= '9') || c == '-'
}

/// An electronic-mail address: non-empty, at most 100 bytes in its encoded
/// form, and in the shape local-part, `@`, dot-separated domain labels.
#[derive(Debug, PartialEq)]
pub struct Email {
    email: String,
}

/// The failure of constructing an address from outside text.
#[derive(Debug, Clone, Copy, PartialEq, Eq, Structural)]
pub enum EmailError {
    Empty,
    TooLong,
    InvalidFormat,
}

impl View for Email {
    type V = Seq<char>;

    closed spec fn view(&self) -> Seq<char> {
        self.email@
    }
}

impl Clone for Email {
    fn clone(&self) -> (r: Self)
        ensures
            r == *self,
    {
        Email { email: self.email.clone() }
    }
}

impl Email {
    /// The position of the first separator, if there is one.
    fn find_at(email: &str) -> (r: Option<usize>)
        ensures
            r matches Some(at) ==> at < email@.len() && email@[at as int] == '@' && forall|i: int|
                0 <= i < at ==> email@[i] != '@',
            r is None ==> forall|i: int| 0 <= i < email@.len() ==> email@[i] != '@',
    {
        let n = email.unicode_len();
        let mut i: usize = 0;
        while i < n
            invariant
                i <= n,
                n == email@.len(),
                forall|j: int| 0 <= j < i ==> email@[j] != '@',
            decreases n - i,
        {
            if email.get_char(i) == '@' {
                return Some(i);
            }
            i = i + 1;
        }
        None
    }

    /// Whether the characters before the separator form a local part.
    fn check_local(email: &str, at: usize) -> (r: bool)
        requires
            at <= email@.len(),
        ensures
            r == is_valid_email_local(email@.subrange(0, at as int)),
    {
        let ghost part = email@.subrange(0, at as int);
        if at == 0 {
            return false;
        }
        let mut i: usize = 0;
        while i < at
            invariant
                i <= at,
                at <= email@.len(),
                part == email@.subrange(0, at as int),
                forall|j: int| 0 <= j < i ==> is_email_local_char(#[trigger] part[j]),
            decreases at - i,
        {
            let c = email.get_char(i);
            proof {
                assert(part[i as int] == email@[i as int]);
            }
            if !email_local_char(c) {
                return false;
            }
            i = i + 1;
        }
        true
    }

    /// Whether the characters after the separator form a domain.
    fn check_domain(email: &str, at: usize) -> (r: bool)
        requires
            at < email@.len(),
        ensures
            r == is_valid_email_domain(email@.subrange(at as int + 1, email@.len() as int)),
    {
        let n = email.unicode_len();
        let ghost part = email@.subrange(at as int + 1, email@.len() as int);
        if at + 1 == n {
            return false;
        }
        if email.get_char(at + 1) == '.' {
            proof {
                assert(part[0] == email@[at as int + 1]);
            }
            return false;
        }
        if email.get_char(n - 1) == '.' {
            proof {
                assert(part[part.len() - 1] == email@[email@.len() - 1]);
            }
            return false;
        }
        let mut prev_dot = false;
        let mut i: usize = at + 1;
        while i < n
            invariant
                at + 1 <= i <= n,
                at < email@.len(),
                n == email@.len(),
                part == email@.subrange(at as int + 1, email@.len() as int),
                prev_dot == (i > at + 1 && part[i - at - 2] == '.'),
                forall|j: int|
                    0 <= j < i - at - 1 ==> is_email_domain_char(#[trigger] part[j]) || part[j]
                        == '.',
                forall|j: int|
                    0 <= j < i - at - 2 ==> !(#[trigger] part[j] == '.' && part[j + 1] == '.'),
            decreases n - i,
        {
            let c = email.get_char(i);
            proof {
                assert(part[i - at - 1] == email@[i as int]);
            }
            if !email_domain_char(c) && c != '.' {
                return false;
            }
            if c == '.' && prev_dot {
                proof {
                    assert(part[i - at - 2] == '.' && part[i - at - 2 + 1] == '.');
                }
                return false;
            }
            prev_dot = c == '.';
            i = i + 1;
        }
        proof {
            assert(part[0] == email@[at as int + 1]);
            assert(part[part.len() - 1] == email@[email@.len() - 1]);
        }
        true
    }

    pub fn new(email: &str) -> (r: Result<Email, EmailError>)
        ensures
            email@.len() == 0 ==> r == Err::<Email, EmailError>(EmailError::Empty),
            email@.len() > 0 && email.spec_bytes().len() > 100 ==> r == Err::<Email, EmailError>(
                EmailError::TooLong,
            ),
            email@.len() > 0 && email.spec_bytes().len() <= 100 && !is_valid_email(email@) ==> r
                == Err::<Email, EmailError>(EmailError::InvalidFormat),
            r matches Ok(e) ==> e@ == email@,
            r is Ok <==> email@.len() > 0 && email.spec_bytes().len() <= 100 && is_valid_email(
                email@,
            ),
    {
        if email.is_empty() {
            return Err(EmailError::Empty);
        }
        if email.as_bytes().len() > 100 {
            return Err(EmailError::TooLong);
        }
        match Self::find_at(email) {
            None => Err(EmailError::InvalidFormat),
            Some(at) => {
                proof {
                    lemma_email_valid_at_first_at(email@, at as int);
                }
                if !Self::check_local(email, at) {
                    return Err(EmailError::InvalidFormat);
                }
                if !Self::check_domain(email, at) {
                    return Err(EmailError::InvalidFormat);
                }
                Ok(Email { email: email.to_owned() })
            },
        }
    }

    /// The address as text.
    pub fn to_string(&self) -> (r: String)
        ensures
            r@ == self@,
    {
        self.email.clone()
    }
}

} // verus!

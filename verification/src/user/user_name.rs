use vstd::string::StringSliceAdditionalSpecFns;
use vstd::prelude::*;

verus! {

/// A user name: non-empty, at most 100 bytes in its encoded form.
#[derive(Debug, PartialEq)]
pub struct UserName {
    name: String,
}

/// The failure of constructing a user name: a construction-time error,
/// never surfaced as a domain command failure.
#[derive(Debug, Clone, Copy, PartialEq, Eq, Structural)]
pub enum UserNameError {
    Empty,
    TooLong,
}

impl View for UserName {
    type V = Seq<char>;

    closed spec fn view(&self) -> Seq<char> {
        self.name@
    }
}

impl Clone for UserName {
    fn clone(&self) -> (r: Self)
        ensures
            r == *self,
    {
        UserName { name: self.name.clone() }
    }
}

impl UserName {
    /// The texts accepted as user names: non-empty, at most 100 bytes in
    /// the encoded form.
    pub open spec fn valid(s: &str) -> bool {
        s@.len() > 0 && s.spec_bytes().len() <= 100
    }

    pub fn new(name: &str) -> (r: Result<UserName, UserNameError>)
        ensures
            name@.len() == 0 ==> r == Err::<UserName, UserNameError>(UserNameError::Empty),
            name@.len() > 0 && name.spec_bytes().len() > 100 ==> r == Err::<
                UserName,
                UserNameError,
            >(UserNameError::TooLong),
            r matches Ok(p) ==> p@ == name@,
            r is Ok <==> Self::valid(name),
    {
        if name.is_empty() {
            Err(UserNameError::Empty)
        } else if name.as_bytes().len() > 100 {
            Err(UserNameError::TooLong)
        } else {
            Ok(UserName { name: name.to_owned() })
        }
    }

    /// The name as text.
    pub fn to_string(&self) -> (r: String)
        ensures
            r@ == self@,
    {
        self.name.clone()
    }
}

} // verus!

use vstd::prelude::*;

verus! {

/// A project's display name: non-empty, at most 100 characters.
#[derive(Debug, PartialEq)]
pub struct ProjectName {
    name: String,
}

/// The failure of constructing a project name: a construction-time error,
/// never surfaced as a domain command failure.
#[derive(Debug, Clone, Copy, PartialEq, Eq, Structural)]
pub enum ProjectNameError {
    Empty,
    TooLong,
}

impl View for ProjectName {
    type V = Seq<char>;

    closed spec fn view(&self) -> Seq<char> {
        self.name@
    }
}

impl Clone for ProjectName {
    fn clone(&self) -> (r: Self)
        ensures
            r == *self,
    {
        ProjectName { name: self.name.clone() }
    }
}

impl ProjectName {
    /// The texts accepted as project names: non-empty, at most 100 characters
    /// counted as Unicode scalar values.
    pub open spec fn valid(s: Seq<char>) -> bool {
        1 <= s.len() <= 100
    }

    pub fn new(name: &str) -> (r: Result<ProjectName, ProjectNameError>)
        ensures
            name@.len() == 0 ==> r == Err::<ProjectName, ProjectNameError>(ProjectNameError::Empty),
            name@.len() > 100 ==> r == Err::<ProjectName, ProjectNameError>(
                ProjectNameError::TooLong,
            ),
            r matches Ok(p) ==> p@ == name@,
            r is Ok <==> Self::valid(name@),
    {
        let n = name.unicode_len();
        if n == 0 {
            Err(ProjectNameError::Empty)
        } else if n > 100 {
            Err(ProjectNameError::TooLong)
        } else {
            Ok(ProjectName { name: name.to_owned() })
        }
    }

    /// The name as text.
    pub fn to_string(&self) -> (r: String)
        ensures
            r@ == self@,
    {
        self.name.clone()
    }
}

} // verus!

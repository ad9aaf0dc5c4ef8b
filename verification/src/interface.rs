use vstd::prelude::*;

verus! {

/// The transport-level request to create a project.
#[derive(Debug, Clone)]
pub struct CreateProjectInput {
    pub name: String,
}

/// The transport-level request to delete a project.
#[derive(Debug, Clone)]
pub struct DeleteProjectInput {
    pub project_id: String,
}

/// The transport-level request to add a member.
#[derive(Debug, Clone)]
pub struct AddMemberInput {
    pub project_id: String,
    pub user_id: String,
    pub role: String,
}

/// The transport-level request to remove a member.
#[derive(Debug, Clone)]
pub struct RemoveMemberInput {
    pub project_id: String,
    pub user_id: String,
}

/// The transport-level request to rename a project.
#[derive(Debug, Clone)]
pub struct RenameProjectInput {
    pub project_id: String,
    pub new_name: String,
}

/// The transport-level answer to a successful command: the project acted on.
#[derive(Debug, Clone)]
pub struct ProjectOut {
    project_id: String,
}

impl ProjectOut {
    pub fn new(project_id: String) -> (r: ProjectOut)
        ensures
            r.spec_project_id() == project_id@,
    {
        ProjectOut { project_id }
    }

    /// The identity the command acted on.
    pub closed spec fn spec_project_id(self) -> Seq<char> {
        self.project_id@
    }

    pub fn project_id(&self) -> (r: &str)
        ensures
            r@ == self.spec_project_id(),
    {
        self.project_id.as_str()
    }
}

/// What a bearer token asserts: the subject and the expiry instant, in
/// seconds since the Unix epoch.
#[derive(Debug, Clone)]
pub struct Claims {
    pub sub: String,
    pub exp: usize,
}

} // verus!

use vstd::prelude::*;

use crate::project::project_id::ProjectId;
use crate::project::project_name::ProjectName;
use crate::user::user_id::UserId;

verus! {

/// A business-rule rejection of a project command; the first field of the
/// parameterised variants names the argument at fault.
#[derive(Debug)]
pub enum ProjectError {
    /// The project is already deleted.
    AlreadyDeletedError(ProjectId),
    /// The named executor does not hold the Administrator role.
    NotAdministratorError(String, UserId),
    /// The named user holds no membership record.
    NotMemberError(String, UserId),
    /// The named user already holds a membership record.
    AlreadyMemberError(String, UserId),
    /// The two named arguments do not belong together.
    MismatchedUserError(String, String),
    /// A project of that name already exists.
    AlreadyExistsNameError(ProjectId, ProjectName),
}

} // verus!

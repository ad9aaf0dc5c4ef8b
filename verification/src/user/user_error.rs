use vstd::prelude::*;

use crate::user::user_id::UserId;

verus! {

/// A business-rule rejection of a user command.
#[derive(Debug, Clone)]
pub enum UserError {
    /// The user account is already deleted.
    AlreadyDeletedError(UserId),
}

} // verus!

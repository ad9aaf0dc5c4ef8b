use vstd::prelude::*;

use crate::email::Email;
use crate::user::user_id::UserId;
use crate::user::user_name::UserName;

verus! {

/// The payload of a user-account creation event.
#[derive(Debug)]
pub struct UserEventCreatedBody {
    pub aggregate_id: UserId,
    pub user_name: UserName,
    pub email: Email,
    pub occurred_at: i64,
}

impl UserEventCreatedBody {
    pub fn new(aggregate_id: UserId, user_name: UserName, email: Email, occurred_at: i64) -> (r:
        UserEventCreatedBody)
        ensures
            r.aggregate_id == aggregate_id,
            r.user_name == user_name,
            r.email == email,
            r.occurred_at == occurred_at,
    {
        UserEventCreatedBody { aggregate_id, user_name, email, occurred_at }
    }
}

/// The payload of a user-account deletion event.
#[derive(Debug, Clone, Copy)]
pub struct UserEventDeletedBody {
    pub aggregate_id: UserId,
    pub occurred_at: i64,
}

impl UserEventDeletedBody {
    pub fn new(aggregate_id: UserId, occurred_at: i64) -> (r: UserEventDeletedBody)
        ensures
            r.aggregate_id == aggregate_id,
            r.occurred_at == occurred_at,
    {
        UserEventDeletedBody { aggregate_id, occurred_at }
    }
}

/// An immutable fact about one user account.
#[derive(Debug)]
pub enum UserEvent {
    /// The user account was created.
    UserCreated(UserEventCreatedBody),
    /// The user account was deleted.
    UserDeleted(UserEventDeletedBody),
}

} // verus!

pub mod user_error;
pub mod user_events;
pub mod user_id;
pub mod user_name;

use vstd::prelude::*;

use crate::clock::now_millis;
use crate::email::Email;
use crate::helper::IdGenerator;
pub use crate::user::user_error::UserError;
pub use crate::user::user_events::{UserEvent, UserEventCreatedBody, UserEventDeletedBody};
pub use crate::user::user_id::UserId;
pub use crate::user::user_name::{UserName, UserNameError};

verus! {

/// A user account: event-sourced like the project, with a creation and a
/// deletion transition.
#[derive(Debug)]
pub struct User {
    id: UserId,
    deleted: bool,
    user_name: UserName,
    email: Email,
    seq_nr_counter: usize,
    version: usize,
    last_updated_at: i64,
}

impl User {
    pub closed spec fn spec_id(self) -> UserId {
        self.id
    }

    pub closed spec fn spec_deleted(self) -> bool {
        self.deleted
    }

    pub closed spec fn spec_user_name(self) -> Seq<char> {
        self.user_name@
    }

    pub closed spec fn spec_email(self) -> Seq<char> {
        self.email@
    }

    pub closed spec fn spec_seq_nr(self) -> nat {
        self.seq_nr_counter as nat
    }

    pub closed spec fn spec_version(self) -> nat {
        self.version as nat
    }

    /// Builds a user account from its parts, as the start of its life: the
    /// creation event is emitted beside it.
    pub fn from(
        id: UserId,
        deleted: bool,
        user_name: UserName,
        email: Email,
        seq_nr_counter: usize,
        version: usize,
    ) -> (r: (User, UserEvent))
        ensures
            r.0.spec_id() == id,
            r.0.spec_deleted() == deleted,
            r.0.spec_user_name() == user_name@,
            r.0.spec_email() == email@,
            r.0.spec_seq_nr() == seq_nr_counter as nat,
            r.0.spec_version() == version as nat,
            r.1 matches UserEvent::UserCreated(b) && b.aggregate_id == id && b.user_name@
                == user_name@ && b.email@ == email@,
    {
        let now = now_millis();
        let my_self = User {
            id,
            deleted,
            user_name: user_name.clone(),
            email: email.clone(),
            seq_nr_counter,
            version,
            last_updated_at: now,
        };
        let event = UserEvent::UserCreated(UserEventCreatedBody::new(id, user_name, email, now));
        (my_self, event)
    }

    /// Starts a new user account with a fresh identity.
    pub fn new(user_name: UserName, email: Email, idgen: &mut IdGenerator) -> (r: (User, UserEvent))
        ensures
            r.0.spec_deleted() == false,
            r.0.spec_user_name() == user_name@,
            r.0.spec_email() == email@,
            r.0.spec_seq_nr() == 0,
            r.0.spec_version() == 1,
            r.1 matches UserEvent::UserCreated(b) && b.aggregate_id == r.0.spec_id() && b.user_name@
                == user_name@ && b.email@ == email@,
    {
        let id = UserId::new(idgen);
        Self::from(id, false, user_name, email, 0, 1)
    }

    /// Deletes the account: rejected if it is already deleted; otherwise the
    /// account enters its terminal state and the deletion event is emitted.
    pub fn delete(&mut self) -> (r: Result<UserEvent, UserError>)
        requires
            old(self).spec_seq_nr() < usize::MAX,
        ensures
            r is Err <==> old(self).spec_deleted(),
            r is Err ==> *final(self) == *old(self),
            r matches Err(e) ==> e matches UserError::AlreadyDeletedError(uid) && uid == old(self).spec_id(),
            r matches Ok(ev) ==> ev matches UserEvent::UserDeleted(b) && b.aggregate_id == old(self).spec_id(),
            r is Ok ==> final(self).spec_deleted() && final(self).spec_seq_nr() == old(self).spec_seq_nr() + 1 && final(self).spec_id() == old(self).spec_id() && final(self).spec_user_name() == old(self).spec_user_name() && final(self).spec_email() == old(self).spec_email() && final(self).spec_version() == old(self).spec_version(),
    {
        if self.deleted {
            return Err(UserError::AlreadyDeletedError(self.id));
        }
        self.deleted = true;
        self.seq_nr_counter = self.seq_nr_counter + 1;
        Ok(UserEvent::UserDeleted(UserEventDeletedBody::new(self.id, now_millis())))
    }

    /// The account's identity.
    pub fn id(&self) -> (r: UserId)
        ensures
            r == self.spec_id(),
    {
        self.id
    }

    /// The account's logical clock.
    pub fn seq_nr(&self) -> (r: usize)
        ensures
            r == self.spec_seq_nr(),
    {
        self.seq_nr_counter
    }

    /// The optimistic-concurrency token; the repository alone compares it.
    pub fn version(&self) -> (r: usize)
        ensures
            r == self.spec_version(),
    {
        self.version
    }

    /// Sets the optimistic-concurrency token, on the repository's behalf.
    pub fn set_version(&mut self, version: usize)
        ensures
            final(self).spec_version() == version as nat,
            final(self).spec_id() == old(self).spec_id(),
            final(self).spec_deleted() == old(self).spec_deleted(),
            final(self).spec_user_name() == old(self).spec_user_name(),
            final(self).spec_email() == old(self).spec_email(),
            final(self).spec_seq_nr() == old(self).spec_seq_nr(),
    {
        self.version = version;
    }

    /// When the account last changed, in milliseconds since the Unix epoch.
    pub fn last_updated_at(&self) -> i64 {
        self.last_updated_at
    }
}

} // verus!

use vstd::prelude::*;

use crate::helper::IdGenerator;
use crate::project::member::Member;
use crate::project::members::Members;
use crate::project::project_id::ProjectId;
use crate::project::project_name::ProjectName;
use crate::user::user_id::UserId;

verus! {

/// What a project event says, with every payload reduced to its mathematical
/// content; the registry carried by a creation event is reduced to its map.
#[verifier::ext_equal]
pub enum ProjectEventAbs {
    Created {
        id: u128,
        aggregate_id: ProjectId,
        seq_nr: nat,
        name: Seq<char>,
        members: Map<UserId, Member>,
        executor_id: UserId,
        occurred_at: int,
    },
    Deleted {
        id: u128,
        aggregate_id: ProjectId,
        seq_nr: nat,
        executor_id: UserId,
        occurred_at: int,
    },
    MemberAdded {
        id: u128,
        aggregate_id: ProjectId,
        seq_nr: nat,
        member: Member,
        executor_id: UserId,
        occurred_at: int,
    },
    MemberRemoved {
        id: u128,
        aggregate_id: ProjectId,
        seq_nr: nat,
        user_id: UserId,
        executor_id: UserId,
        occurred_at: int,
    },
}


impl ProjectEventAbs {
    /// The identifier of the event itself.
    pub open spec fn spec_id(self) -> u128 {
        match self {
            ProjectEventAbs::Created { id, .. } => id,
            ProjectEventAbs::Deleted { id, .. } => id,
            ProjectEventAbs::MemberAdded { id, .. } => id,
            ProjectEventAbs::MemberRemoved { id, .. } => id,
        }
    }

    /// The sequence number the event produced on its aggregate.
    pub open spec fn spec_seq_nr(self) -> nat {
        match self {
            ProjectEventAbs::Created { seq_nr, .. } => seq_nr,
            ProjectEventAbs::Deleted { seq_nr, .. } => seq_nr,
            ProjectEventAbs::MemberAdded { seq_nr, .. } => seq_nr,
            ProjectEventAbs::MemberRemoved { seq_nr, .. } => seq_nr,
        }
    }

    /// The project the event belongs to.
    pub open spec fn spec_aggregate_id(self) -> ProjectId {
        match self {
            ProjectEventAbs::Created { aggregate_id, .. } => aggregate_id,
            ProjectEventAbs::Deleted { aggregate_id, .. } => aggregate_id,
            ProjectEventAbs::MemberAdded { aggregate_id, .. } => aggregate_id,
            ProjectEventAbs::MemberRemoved { aggregate_id, .. } => aggregate_id,
        }
    }

    /// When the event occurred, in milliseconds since the Unix epoch.
    pub open spec fn spec_occurred_at(self) -> int {
        match self {
            ProjectEventAbs::Created { occurred_at, .. } => occurred_at,
            ProjectEventAbs::Deleted { occurred_at, .. } => occurred_at,
            ProjectEventAbs::MemberAdded { occurred_at, .. } => occurred_at,
            ProjectEventAbs::MemberRemoved { occurred_at, .. } => occurred_at,
        }
    }
}

/// The payload of a creation event.
#[derive(Debug)]
pub struct ProjectEventCreatedBody {
    pub id: u128,
    pub aggregate_id: ProjectId,
    pub seq_nr: usize,
    pub name: ProjectName,
    pub members: Members,
    pub executor_id: UserId,
    pub occurred_at: i64,
}

impl Clone for ProjectEventCreatedBody {
    fn clone(&self) -> (r: Self)
        ensures
            r.id == self.id,
            r.aggregate_id == self.aggregate_id,
            r.seq_nr == self.seq_nr,
            r.name == self.name,
            r.members@ == self.members@,
            r.executor_id == self.executor_id,
            r.occurred_at == self.occurred_at,
    {
        ProjectEventCreatedBody {
            id: self.id,
            aggregate_id: self.aggregate_id,
            seq_nr: self.seq_nr,
            name: self.name.clone(),
            members: self.members.clone(),
            executor_id: self.executor_id,
            occurred_at: self.occurred_at,
        }
    }
}

impl ProjectEventCreatedBody {
    pub fn new(
        aggregate_id: ProjectId,
        seq_nr: usize,
        name: ProjectName,
        members: Members,
        executor_id: UserId,
        occurred_at: i64,
        idgen: &mut IdGenerator,
    ) -> (r: Self)
        ensures
            r.aggregate_id == aggregate_id,
            r.seq_nr == seq_nr,
            r.name == name,
            r.members == members,
            r.executor_id == executor_id,
            r.occurred_at == occurred_at,
            final(idgen).last_issued() == Some(r.id),
    {
        let id = idgen.generate();
        ProjectEventCreatedBody { id, aggregate_id, seq_nr, name, members, executor_id, occurred_at }
    }
}

/// The payload of a deletion event.
#[derive(Debug, Clone, Copy)]
pub struct ProjectEventDeletedBody {
    pub id: u128,
    pub aggregate_id: ProjectId,
    pub seq_nr: usize,
    pub executor_id: UserId,
    pub occurred_at: i64,
}

impl ProjectEventDeletedBody {
    pub fn new(
        aggregate_id: ProjectId,
        seq_nr: usize,
        executor_id: UserId,
        occurred_at: i64,
        idgen: &mut IdGenerator,
    ) -> (r: Self)
        ensures
            r.aggregate_id == aggregate_id,
            r.seq_nr == seq_nr,
            r.executor_id == executor_id,
            r.occurred_at == occurred_at,
            final(idgen).last_issued() == Some(r.id),
    {
        let id = idgen.generate();
        ProjectEventDeletedBody { id, aggregate_id, seq_nr, executor_id, occurred_at }
    }
}

/// The payload of a member-addition event.
#[derive(Debug, Clone, Copy)]
pub struct ProjectEventMemberAddedBody {
    pub id: u128,
    pub aggregate_id: ProjectId,
    pub seq_nr: usize,
    pub member: Member,
    pub executor_id: UserId,
    pub occurred_at: i64,
}

impl ProjectEventMemberAddedBody {
    pub fn new(
        aggregate_id: ProjectId,
        seq_nr: usize,
        member: Member,
        executor_id: UserId,
        occurred_at: i64,
        idgen: &mut IdGenerator,
    ) -> (r: Self)
        ensures
            r.aggregate_id == aggregate_id,
            r.seq_nr == seq_nr,
            r.member == member,
            r.executor_id == executor_id,
            r.occurred_at == occurred_at,
            final(idgen).last_issued() == Some(r.id),
    {
        let id = idgen.generate();
        ProjectEventMemberAddedBody { id, aggregate_id, seq_nr, member, executor_id, occurred_at }
    }
}

/// The payload of a member-removal event.
#[derive(Debug, Clone, Copy)]
pub struct ProjectEventMemberRemovedBody {
    pub id: u128,
    pub aggregate_id: ProjectId,
    pub seq_nr: usize,
    pub user_id: UserId,
    pub executor_id: UserId,
    pub occurred_at: i64,
}

impl ProjectEventMemberRemovedBody {
    pub fn new(
        aggregate_id: ProjectId,
        seq_nr: usize,
        user_id: UserId,
        executor_id: UserId,
        occurred_at: i64,
        idgen: &mut IdGenerator,
    ) -> (r: Self)
        ensures
            r.aggregate_id == aggregate_id,
            r.seq_nr == seq_nr,
            r.user_id == user_id,
            r.executor_id == executor_id,
            r.occurred_at == occurred_at,
            final(idgen).last_issued() == Some(r.id),
    {
        let id = idgen.generate();
        ProjectEventMemberRemovedBody {
            id,
            aggregate_id,
            seq_nr,
            user_id,
            executor_id,
            occurred_at,
        }
    }
}

/// An immutable fact about one project, appended in increasing sequence-number
/// order, never mutated or deleted.
#[derive(Debug)]
pub enum ProjectEvent {
    /// The project was created.
    ProjectCreated(ProjectEventCreatedBody),
    /// The project was deleted.
    ProjectDeleted(ProjectEventDeletedBody),
    /// A member joined the project.
    ProjectMemberAdded(ProjectEventMemberAddedBody),
    /// A member left the project.
    ProjectMemberRemoved(ProjectEventMemberRemovedBody),
}

impl View for ProjectEvent {
    type V = ProjectEventAbs;

    open spec fn view(&self) -> ProjectEventAbs {
        match self {
            ProjectEvent::ProjectCreated(b) => ProjectEventAbs::Created {
                id: b.id,
                aggregate_id: b.aggregate_id,
                seq_nr: b.seq_nr as nat,
                name: b.name@,
                members: b.members.to_map(),
                executor_id: b.executor_id,
                occurred_at: b.occurred_at as int,
            },
            ProjectEvent::ProjectDeleted(b) => ProjectEventAbs::Deleted {
                id: b.id,
                aggregate_id: b.aggregate_id,
                seq_nr: b.seq_nr as nat,
                executor_id: b.executor_id,
                occurred_at: b.occurred_at as int,
            },
            ProjectEvent::ProjectMemberAdded(b) => ProjectEventAbs::MemberAdded {
                id: b.id,
                aggregate_id: b.aggregate_id,
                seq_nr: b.seq_nr as nat,
                member: b.member,
                executor_id: b.executor_id,
                occurred_at: b.occurred_at as int,
            },
            ProjectEvent::ProjectMemberRemoved(b) => ProjectEventAbs::MemberRemoved {
                id: b.id,
                aggregate_id: b.aggregate_id,
                seq_nr: b.seq_nr as nat,
                user_id: b.user_id,
                executor_id: b.executor_id,
                occurred_at: b.occurred_at as int,
            },
        }
    }
}

impl Clone for ProjectEvent {
    fn clone(&self) -> (r: Self)
        ensures
            r@ == self@,
            r.wf() == self.wf(),
    {
        let r = match self {
            ProjectEvent::ProjectCreated(b) => ProjectEvent::ProjectCreated(b.clone()),
            ProjectEvent::ProjectDeleted(b) => ProjectEvent::ProjectDeleted(b.clone()),
            ProjectEvent::ProjectMemberAdded(b) => ProjectEvent::ProjectMemberAdded(b.clone()),
            ProjectEvent::ProjectMemberRemoved(b) => ProjectEvent::ProjectMemberRemoved(b.clone()),
        };
        proof {
            assert(r@ =~= self@);
        }
        r
    }
}

impl ProjectEvent {
    /// Well-formed: a carried registry holds at most one record per user.
    pub open spec fn wf(self) -> bool {
        match self {
            ProjectEvent::ProjectCreated(b) => b.members.wf(),
            _ => true,
        }
    }

    /// The identifier of the event itself.
    pub fn id(&self) -> (r: u128)
        ensures
            r == self@.spec_id(),
    {
        match self {
            ProjectEvent::ProjectCreated(b) => b.id,
            ProjectEvent::ProjectDeleted(b) => b.id,
            ProjectEvent::ProjectMemberAdded(b) => b.id,
            ProjectEvent::ProjectMemberRemoved(b) => b.id,
        }
    }

    /// The sequence number this event produced on its aggregate.
    pub fn seq_nr(&self) -> (r: usize)
        ensures
            r == self@.spec_seq_nr(),
    {
        match self {
            ProjectEvent::ProjectCreated(b) => b.seq_nr,
            ProjectEvent::ProjectDeleted(b) => b.seq_nr,
            ProjectEvent::ProjectMemberAdded(b) => b.seq_nr,
            ProjectEvent::ProjectMemberRemoved(b) => b.seq_nr,
        }
    }

    /// The project this event belongs to.
    pub fn aggregate_id(&self) -> (r: ProjectId)
        ensures
            r == self@.spec_aggregate_id(),
    {
        match self {
            ProjectEvent::ProjectCreated(b) => b.aggregate_id,
            ProjectEvent::ProjectDeleted(b) => b.aggregate_id,
            ProjectEvent::ProjectMemberAdded(b) => b.aggregate_id,
            ProjectEvent::ProjectMemberRemoved(b) => b.aggregate_id,
        }
    }

    /// When the event occurred, in milliseconds since the Unix epoch.
    pub fn occurred_at(&self) -> (r: i64)
        ensures
            r == self@.spec_occurred_at(),
    {
        match self {
            ProjectEvent::ProjectCreated(b) => b.occurred_at,
            ProjectEvent::ProjectDeleted(b) => b.occurred_at,
            ProjectEvent::ProjectMemberAdded(b) => b.occurred_at,
            ProjectEvent::ProjectMemberRemoved(b) => b.occurred_at,
        }
    }

    /// Whether this is the creation event.
    pub fn is_created(&self) -> (r: bool)
        ensures
            r == (self@ is Created),
    {
        match self {
            ProjectEvent::ProjectCreated(_) => true,
            _ => false,
        }
    }
}

} // verus!

pub mod member;
pub mod member_id;
pub mod member_role;
pub mod members;
pub mod project_error;
pub mod project_events;
pub mod project_id;
pub mod project_name;

use vstd::map::*;
use vstd::prelude::*;

use crate::clock::now_millis;
use crate::helper::IdGenerator;
pub use crate::project::member::Member;
pub use crate::project::member_id::MemberId;
pub use crate::project::member_role::MemberRole;
pub use crate::project::members::Members;
pub use crate::project::project_error::ProjectError;
pub use crate::project::project_events::{
    ProjectEvent, ProjectEventAbs, ProjectEventCreatedBody, ProjectEventDeletedBody,
    ProjectEventMemberAddedBody, ProjectEventMemberRemovedBody,
};
pub use crate::project::project_id::ProjectId;
pub use crate::project::project_name::{ProjectName, ProjectNameError};
pub use crate::user::user_id::UserId;

verus! {

/// Whether the user holds the Administrator role in the given registry map.
pub open spec fn map_is_administrator(m: Map<UserId, Member>, user_id: UserId) -> bool {
    m.contains_key(user_id) && m[user_id].spec_role() == MemberRole::Admin
}

/// Whether the user holds any membership record in the given registry map.
pub open spec fn map_is_member(m: Map<UserId, Member>, user_id: UserId) -> bool {
    m.contains_key(user_id)
}

/// What a project is, mathematically: its identity, deletion flag, name,
/// membership map, logical clock, concurrency token, and last update time.
#[verifier::ext_equal]
pub struct ProjectAbs {
    pub id: ProjectId,
    pub deleted: bool,
    pub name: Seq<char>,
    pub members: Map<UserId, Member>,
    pub seq_nr: nat,
    pub version: nat,
    pub last_updated_at: int,
}

/// One event folded into a project state. Replay trusts history: the event was
/// authorized when it was emitted, so no rule is re-checked here.
pub open spec fn spec_apply_event(p: ProjectAbs, e: ProjectEventAbs) -> ProjectAbs {
    match e {
        ProjectEventAbs::Created { aggregate_id, seq_nr, name, members, occurred_at, .. } => (
        ProjectAbs {
            id: aggregate_id,
            deleted: false,
            name,
            members,
            seq_nr,
            last_updated_at: occurred_at,
            ..p
        }),
        ProjectEventAbs::Deleted { seq_nr, occurred_at, .. } => (ProjectAbs {
            deleted: true,
            seq_nr,
            last_updated_at: occurred_at,
            ..p
        }),
        ProjectEventAbs::MemberAdded { seq_nr, member, occurred_at, .. } => (ProjectAbs {
            members: p.members.insert(member.spec_user_id(), member),
            seq_nr,
            last_updated_at: occurred_at,
            ..p
        }),
        ProjectEventAbs::MemberRemoved { seq_nr, user_id, occurred_at, .. } => (ProjectAbs {
            members: p.members.remove(user_id),
            seq_nr,
            last_updated_at: occurred_at,
            ..p
        }),
    }
}

/// An ordered run of events folded into a snapshot, first event first.
pub open spec fn spec_replay(snapshot: ProjectAbs, events: Seq<ProjectEventAbs>) -> ProjectAbs
    decreases events.len(),
{
    if events.len() == 0 {
        snapshot
    } else {
        spec_apply_event(spec_replay(snapshot, events.drop_last()), events.last())
    }
}

/// The mathematical content of a sequence of events.
pub open spec fn abs_of_events(events: Seq<ProjectEvent>) -> Seq<ProjectEventAbs> {
    events.map_values(|e: ProjectEvent| e@)
}

/// The command was rejected because the project is already deleted.
pub open spec fn rejected_already_deleted(r: Result<ProjectEvent, ProjectError>, p: ProjectAbs) -> bool {
    r matches Err(e) && e matches ProjectError::AlreadyDeletedError(pid) && pid == p.id
}

/// The command was rejected because the executor is not an administrator.
pub open spec fn rejected_not_administrator(r: Result<ProjectEvent, ProjectError>, executor_id: UserId) -> bool {
    r matches Err(e) && e matches ProjectError::NotAdministratorError(f, u) && f@ == "executor_id"@
        && u == executor_id
}

/// The command was rejected because the user is already a member.
pub open spec fn rejected_already_member(r: Result<ProjectEvent, ProjectError>, user_id: UserId) -> bool {
    r matches Err(e) && e matches ProjectError::AlreadyMemberError(f, u) && f@ == "user_id"@ && u
        == user_id
}

/// The command was rejected because the user is not a member.
pub open spec fn rejected_not_member(r: Result<ProjectEvent, ProjectError>, user_id: UserId) -> bool {
    r matches Err(e) && e matches ProjectError::NotMemberError(f, u) && f@ == "user_id"@ && u
        == user_id
}

/// The event a deletion of the given project state must carry.
pub open spec fn deleted_event_shape(ev: ProjectEventAbs, p: ProjectAbs, executor_id: UserId) -> bool {
    ev matches ProjectEventAbs::Deleted { aggregate_id, seq_nr, executor_id: ex, .. }
        && aggregate_id == p.id && seq_nr == p.seq_nr + 1 && ex == executor_id
}

/// The event an addition of the given member to the given project state must
/// carry.
pub open spec fn member_added_event_shape(
    ev: ProjectEventAbs,
    p: ProjectAbs,
    member_id: MemberId,
    user_id: UserId,
    role: MemberRole,
    executor_id: UserId,
) -> bool {
    ev matches ProjectEventAbs::MemberAdded { aggregate_id, seq_nr, member, executor_id: ex, .. }
        && aggregate_id == p.id && seq_nr == p.seq_nr + 1 && member.spec_id() == member_id
        && member.spec_user_id() == user_id && member.spec_role() == role && ex == executor_id
}

/// The event a removal of the given user from the given project state must
/// carry.
pub open spec fn member_removed_event_shape(
    ev: ProjectEventAbs,
    p: ProjectAbs,
    user_id: UserId,
    executor_id: UserId,
) -> bool {
    ev matches ProjectEventAbs::MemberRemoved { aggregate_id, seq_nr, user_id: uid, executor_id: ex, .. }
        && aggregate_id == p.id && seq_nr == p.seq_nr + 1 && uid == user_id && ex == executor_id
}

/// The event-sourced project aggregate: it validates commands against its
/// current state, emits one event per accepted command, and reconstructs
/// itself by replaying events onto a snapshot.
#[derive(Debug)]
pub struct Project {
    id: ProjectId,
    deleted: bool,
    name: ProjectName,
    members: Members,
    version: usize,
    seq_nr_counter: usize,
    last_updated_at: i64,
}

impl View for Project {
    type V = ProjectAbs;

    closed spec fn view(&self) -> ProjectAbs {
        ProjectAbs {
            id: self.id,
            deleted: self.deleted,
            name: self.name@,
            members: self.members.to_map(),
            seq_nr: self.seq_nr_counter as nat,
            version: self.version as nat,
            last_updated_at: self.last_updated_at as int,
        }
    }
}

impl Clone for Project {
    fn clone(&self) -> (r: Self)
        ensures
            r@ == self@,
            r.members_seq() == self.members_seq(),
            r.wf() == self.wf(),
    {
        let r = Project {
            id: self.id,
            deleted: self.deleted,
            name: self.name.clone(),
            members: self.members.clone(),
            version: self.version,
            seq_nr_counter: self.seq_nr_counter,
            last_updated_at: self.last_updated_at,
        };
        proof {
            assert(r@ =~= self@);
        }
        r
    }
}

impl Project {
    /// Well-formed: the membership registry holds at most one record per user.
    pub closed spec fn wf(self) -> bool {
        self.members.wf()
    }

    /// The membership records in registry order.
    pub closed spec fn members_seq(self) -> Seq<Member> {
        self.members@
    }

    /// Builds a project from its parts, as the start of its life: the
    /// sequence number is advanced once and the creation event is emitted,
    /// carrying the given name and members.
    pub fn from(
        id: ProjectId,
        deleted: bool,
        name: ProjectName,
        members: Members,
        seq_nr_counter: usize,
        version: usize,
        executor_id: UserId,
        idgen: &mut IdGenerator,
    ) -> (r: (Project, ProjectEvent))
        requires
            members.wf(),
            seq_nr_counter < usize::MAX,
        ensures
            r.0.wf(),
            r.1.wf(),
            r.1@ matches ProjectEventAbs::Created {
                aggregate_id,
                seq_nr,
                name: ename,
                members: emembers,
                executor_id: ex,
                occurred_at,
                ..
            } && aggregate_id == id && seq_nr == seq_nr_counter + 1 && ename == name@ && emembers
                == members.to_map() && ex == executor_id && r.0@ == (ProjectAbs {
                id,
                deleted,
                name: name@,
                members: members.to_map(),
                seq_nr: (seq_nr_counter + 1) as nat,
                version: version as nat,
                last_updated_at: occurred_at,
            }),
            r.0.members_seq() == members@,
    {
        let now = now_millis();
        let my_self = Project {
            id,
            deleted,
            name: name.clone(),
            members: members.clone(),
            seq_nr_counter: seq_nr_counter + 1,
            version,
            last_updated_at: now,
        };
        let body = ProjectEventCreatedBody::new(
            id,
            my_self.seq_nr_counter,
            name,
            members,
            executor_id,
            now,
            idgen,
        );
        let event = ProjectEvent::ProjectCreated(body);
        proof {
            assert(my_self@ =~= (ProjectAbs {
                id,
                deleted,
                name: name@,
                members: members.to_map(),
                seq_nr: (seq_nr_counter + 1) as nat,
                version: version as nat,
                last_updated_at: now as int,
            }));
        }
        (my_self, event)
    }

    /// Starts a new project: a fresh identity, sequence number 1, version 1,
    /// and the creation event.
    pub fn new(name: ProjectName, members: Members, executor_id: UserId, idgen: &mut IdGenerator)
        -> (r: (Project, ProjectEvent))
        requires
            members.wf(),
        ensures
            r.0.wf(),
            r.1.wf(),
            r.1@ matches ProjectEventAbs::Created {
                aggregate_id,
                seq_nr,
                name: ename,
                members: emembers,
                executor_id: ex,
                occurred_at,
                ..
            } && aggregate_id == r.0@.id && seq_nr == 1 && ename == name@ && emembers
                == members.to_map() && ex == executor_id && r.0@ == (ProjectAbs {
                id: r.0@.id,
                deleted: false,
                name: name@,
                members: members.to_map(),
                seq_nr: 1,
                version: 1,
                last_updated_at: occurred_at,
            }),
            r.0.members_seq() == members@,
    {
        let id = ProjectId::new(idgen);
        Self::from(id, false, name, members, 0, 1, executor_id, idgen)
    }

    /// The project's identity.
    pub fn id(&self) -> (r: ProjectId)
        ensures
            r == self@.id,
    {
        self.id
    }

    /// Whether the project has entered its terminal, deleted state.
    pub fn deleted(&self) -> (r: bool)
        ensures
            r == self@.deleted,
    {
        self.deleted
    }

    /// The project's logical clock: the sequence number of the last event.
    pub fn seq_nr(&self) -> (r: usize)
        ensures
            r == self@.seq_nr,
    {
        self.seq_nr_counter
    }

    /// The optimistic-concurrency token; the repository alone compares it.
    pub fn version(&self) -> (r: usize)
        ensures
            r == self@.version,
    {
        self.version
    }

    /// Sets the optimistic-concurrency token, on the repository's behalf.
    pub fn set_version(&mut self, version: usize)
        ensures
            final(self)@ == (ProjectAbs { version: version as nat, ..old(self)@ }),
            final(self).members_seq() == old(self).members_seq(),
            final(self).wf() == old(self).wf(),
    {
        self.version = version;
        proof {
            assert(self@ =~= (ProjectAbs { version: version as nat, ..old(self)@ }));
        }
    }

    /// When the project last changed, in milliseconds since the Unix epoch.
    pub fn last_updated_at(&self) -> (r: i64)
        ensures
            r == self@.last_updated_at,
    {
        self.last_updated_at
    }

    /// The project's name.
    pub fn name(&self) -> (r: &ProjectName)
        ensures
            r@ == self@.name,
    {
        &self.name
    }

    /// The project's membership registry.
    pub fn members(&self) -> (r: &Members)
        ensures
            r@ == self.members_seq(),
            r.to_map() == self@.members,
    {
        &self.members
    }

    /// Deletes the project: rejected if already deleted, or if the executor
    /// is not an administrator; otherwise the project enters its terminal
    /// state and the deletion event is emitted.
    pub fn delete(&mut self, executor_id: UserId, idgen: &mut IdGenerator) -> (r: Result<
        ProjectEvent,
        ProjectError,
    >)
        requires
            old(self).wf(),
            old(self)@.seq_nr < usize::MAX,
        ensures
            final(self).wf(),
            rejected_already_deleted(r, old(self)@) <==> old(self)@.deleted,
            rejected_not_administrator(r, executor_id) <==> !old(self)@.deleted
                && !map_is_administrator(old(self)@.members, executor_id),
            r is Err ==> *final(self) == *old(self) && *final(idgen) == *old(idgen),
            r is Ok <==> !old(self)@.deleted && map_is_administrator(
                old(self)@.members,
                executor_id,
            ),
            r matches Ok(ev) ==> ev.wf() && deleted_event_shape(ev@, old(self)@, executor_id)
                && final(self)@ == spec_apply_event(old(self)@, ev@) && final(self).members_seq()
                == old(self).members_seq(),
    {
        if self.deleted {
            return Err(ProjectError::AlreadyDeletedError(self.id));
        }
        if !self.members.is_administrator(&executor_id) {
            return Err(ProjectError::NotAdministratorError(
                String::from_str("executor_id"),
                executor_id,
            ));
        }
        self.deleted = true;
        self.seq_nr_counter = self.seq_nr_counter + 1;
        let now = now_millis();
        self.last_updated_at = now;
        let body = ProjectEventDeletedBody::new(
            self.id,
            self.seq_nr_counter,
            executor_id,
            now,
            idgen,
        );
        proof {
            assert(self@ =~= (ProjectAbs {
                deleted: true,
                seq_nr: (old(self)@.seq_nr + 1) as nat,
                last_updated_at: now as int,
                ..old(self)@
            }));
        }
        Ok(ProjectEvent::ProjectDeleted(body))
    }

    /// Adds a member: rejected if the project is deleted, if the executor is
    /// not an administrator, or if the user already holds a record; otherwise
    /// the record joins the registry and the addition event is emitted.
    pub fn add_member(
        &mut self,
        member_id: MemberId,
        user_id: UserId,
        role: MemberRole,
        executor_id: UserId,
        idgen: &mut IdGenerator,
    ) -> (r: Result<ProjectEvent, ProjectError>)
        requires
            old(self).wf(),
            old(self)@.seq_nr < usize::MAX,
        ensures
            final(self).wf(),
            rejected_already_deleted(r, old(self)@) <==> old(self)@.deleted,
            rejected_not_administrator(r, executor_id) <==> !old(self)@.deleted
                && !map_is_administrator(old(self)@.members, executor_id),
            rejected_already_member(r, user_id) <==> !old(self)@.deleted && map_is_administrator(
                old(self)@.members,
                executor_id,
            ) && map_is_member(old(self)@.members, user_id),
            r is Err ==> *final(self) == *old(self) && *final(idgen) == *old(idgen),
            r is Ok <==> !old(self)@.deleted && map_is_administrator(
                old(self)@.members,
                executor_id,
            ) && !map_is_member(old(self)@.members, user_id),
            r matches Ok(ev) ==> ev.wf() && member_added_event_shape(
                ev@,
                old(self)@,
                member_id,
                user_id,
                role,
                executor_id,
            ) && final(self)@ == spec_apply_event(old(self)@, ev@) && final(self).members_seq()
                == old(self).members_seq().push(ev@->MemberAdded_member),
    {
        if self.deleted {
            return Err(ProjectError::AlreadyDeletedError(self.id));
        }
        if !self.members.is_administrator(&executor_id) {
            return Err(ProjectError::NotAdministratorError(
                String::from_str("executor_id"),
                executor_id,
            ));
        }
        if self.members.is_member(&user_id) {
            return Err(ProjectError::AlreadyMemberError(String::from_str("user_id"), user_id));
        }
        let member = Member::new(member_id, user_id, role);
        self.members.add_member(member);
        self.seq_nr_counter = self.seq_nr_counter + 1;
        let now = now_millis();
        self.last_updated_at = now;
        let body = ProjectEventMemberAddedBody::new(
            self.id,
            self.seq_nr_counter,
            member,
            executor_id,
            now,
            idgen,
        );
        proof {
            assert(self@ =~= (ProjectAbs {
                members: old(self)@.members.insert(user_id, member),
                seq_nr: (old(self)@.seq_nr + 1) as nat,
                last_updated_at: now as int,
                ..old(self)@
            }));
        }
        Ok(ProjectEvent::ProjectMemberAdded(body))
    }

    /// Removes a member: rejected if the project is deleted, if the executor
    /// is not an administrator, or if the user holds no record; otherwise the
    /// record leaves the registry and the removal event is emitted.
    pub fn remove_member(&mut self, user_id: UserId, executor_id: UserId, idgen: &mut IdGenerator)
        -> (r: Result<ProjectEvent, ProjectError>)
        requires
            old(self).wf(),
            old(self)@.seq_nr < usize::MAX,
        ensures
            final(self).wf(),
            rejected_already_deleted(r, old(self)@) <==> old(self)@.deleted,
            rejected_not_administrator(r, executor_id) <==> !old(self)@.deleted
                && !map_is_administrator(old(self)@.members, executor_id),
            rejected_not_member(r, user_id) <==> !old(self)@.deleted && map_is_administrator(
                old(self)@.members,
                executor_id,
            ) && !map_is_member(old(self)@.members, user_id),
            r is Err ==> *final(self) == *old(self) && *final(idgen) == *old(idgen),
            r is Ok <==> !old(self)@.deleted && map_is_administrator(
                old(self)@.members,
                executor_id,
            ) && map_is_member(old(self)@.members, user_id),
            r matches Ok(ev) ==> ev.wf() && member_removed_event_shape(
                ev@,
                old(self)@,
                user_id,
                executor_id,
            ) && final(self)@ == spec_apply_event(old(self)@, ev@) && (exists|i: int|
                0 <= i < old(self).members_seq().len() && old(self).members_seq()[i].spec_user_id()
                    == user_id && final(self).members_seq() == old(self).members_seq().remove(i)),
    {
        if self.deleted {
            return Err(ProjectError::AlreadyDeletedError(self.id));
        }
        if !self.members.is_administrator(&executor_id) {
            return Err(ProjectError::NotAdministratorError(
                String::from_str("executor_id"),
                executor_id,
            ));
        }
        if !self.members.is_member(&user_id) {
            return Err(ProjectError::NotMemberError(String::from_str("user_id"), user_id));
        }
        self.members.remove_member_by_user_id(&user_id);
        self.seq_nr_counter = self.seq_nr_counter + 1;
        let now = now_millis();
        self.last_updated_at = now;
        let body = ProjectEventMemberRemovedBody::new(
            self.id,
            self.seq_nr_counter,
            user_id,
            executor_id,
            now,
            idgen,
        );
        let event = ProjectEvent::ProjectMemberRemoved(body);
        proof {
            assert(self@ =~= (ProjectAbs {
                members: old(self)@.members.remove(user_id),
                seq_nr: (old(self)@.seq_nr + 1) as nat,
                last_updated_at: now as int,
                ..old(self)@
            }));
            assert(member_removed_event_shape(event@, old(self)@, user_id, executor_id));
            assert(self@ == spec_apply_event(old(self)@, event@));
            let w = choose|i: int|
                0 <= i < old(self).members@.len() && old(self).members@[i].spec_user_id()
                    == user_id && self.members@ == old(self).members@.remove(i);
            assert(0 <= w < old(self).members_seq().len() && old(self).members_seq()[
                w
            ].spec_user_id() == user_id && self.members_seq() == old(self).members_seq().remove(
                w,
            ));
        }
        Ok(event)
    }

    /// Folds one event into this state, as replay does: the transition is
    /// applied without re-checking authorization, which was enforced once
    /// when the event was emitted.
    fn apply_event(&mut self, event: &ProjectEvent)
        requires
            old(self).wf(),
            event.wf(),
        ensures
            final(self).wf(),
            final(self)@ == spec_apply_event(old(self)@, event@),
    {
        match event {
            ProjectEvent::ProjectCreated(b) => {
                self.id = b.aggregate_id;
                self.deleted = false;
                self.name = b.name.clone();
                self.members = b.members.clone();
                self.seq_nr_counter = b.seq_nr;
                self.last_updated_at = b.occurred_at;
                proof {
                    assert(self@ =~= spec_apply_event(old(self)@, event@));
                }
            },
            ProjectEvent::ProjectDeleted(b) => {
                self.deleted = true;
                self.seq_nr_counter = b.seq_nr;
                self.last_updated_at = b.occurred_at;
                proof {
                    assert(self@ =~= spec_apply_event(old(self)@, event@));
                }
            },
            ProjectEvent::ProjectMemberAdded(b) => {
                self.members.add_member(b.member);
                self.seq_nr_counter = b.seq_nr;
                self.last_updated_at = b.occurred_at;
                proof {
                    assert(self@ =~= spec_apply_event(old(self)@, event@));
                }
            },
            ProjectEvent::ProjectMemberRemoved(b) => {
                self.members.remove_member_by_user_id(&b.user_id);
                self.seq_nr_counter = b.seq_nr;
                self.last_updated_at = b.occurred_at;
                proof {
                    assert(self@ =~= spec_apply_event(old(self)@, event@));
                }
            },
        }
    }

    /// Rebuilds a project by replaying an ordered run of events onto a
    /// snapshot. Replay is pure: deterministic in the pair of arguments
    /// alone, with no identifier generation and no reading of the clock.
    pub fn replay(events: &Vec<ProjectEvent>, snapshot: Project) -> (r: Project)
        requires
            snapshot.wf(),
            forall|i: int| 0 <= i < events@.len() ==> #[trigger] events@[i].wf(),
        ensures
            r.wf(),
            r@ == spec_replay(snapshot@, abs_of_events(events@)),
    {
        let ghost abs = abs_of_events(events@);
        let mut result = snapshot;
        let n = events.len();
        let mut i: usize = 0;
        while i < n
            invariant
                i <= n,
                n == events@.len(),
                abs == abs_of_events(events@),
                forall|j: int| 0 <= j < n ==> #[trigger] events@[j].wf(),
                result.wf(),
                result@ == spec_replay(snapshot@, abs.take(i as int)),
            decreases n - i,
        {
            result.apply_event(&events[i]);
            proof {
                assert(abs.take(i as int + 1).drop_last() =~= abs.take(i as int));
                assert(abs.take(i as int + 1).last() == abs[i as int]);
            }
            i = i + 1;
        }
        proof {
            assert(abs.take(n as int) =~= abs);
        }
        result
    }
}

/// Whether the run of events holds a creation event.
pub open spec fn events_have_created(events: Seq<ProjectEventAbs>) -> bool {
    exists|i: int| 0 <= i < events.len() && events[i] is Created
}

/// Whether the run of events holds a deletion event.
pub open spec fn events_have_deleted(events: Seq<ProjectEventAbs>) -> bool {
    exists|i: int| 0 <= i < events.len() && events[i] is Deleted
}

/// Whether the event writes the membership record of the given user.
pub open spec fn event_touches_user(e: ProjectEventAbs, u: UserId) -> bool {
    match e {
        ProjectEventAbs::MemberAdded { member, .. } => member.spec_user_id() == u,
        ProjectEventAbs::MemberRemoved { user_id, .. } => user_id == u,
        _ => false,
    }
}

/// Whether some event of the run writes the membership record of the user.
pub open spec fn events_touch_user(events: Seq<ProjectEventAbs>, u: UserId) -> bool {
    exists|i: int| 0 <= i < events.len() && event_touches_user(events[i], u)
}

/// The two registry maps say the same about the given user.
pub open spec fn members_agree_at(a: Map<UserId, Member>, b: Map<UserId, Member>, u: UserId) -> bool {
    a.contains_key(u) == b.contains_key(u) && (a.contains_key(u) ==> a[u] == b[u])
}

/// The two states agree everywhere the run of events does not write.
pub open spec fn agree_outside_writes(
    s: ProjectAbs,
    t: ProjectAbs,
    events: Seq<ProjectEventAbs>,
) -> bool {
    &&& s.version == t.version
    &&& events_have_created(events) || (s.id == t.id && s.name == t.name)
    &&& events_have_created(events) || events_have_deleted(events) || s.deleted == t.deleted
    &&& events.len() > 0 || (s.seq_nr == t.seq_nr && s.last_updated_at == t.last_updated_at)
    &&& events_have_created(events) || (forall|u: UserId|
        !events_touch_user(events, u) ==> members_agree_at(s.members, t.members, u))
}

/// Replay can also be unfolded from the front: fold the first event in, then
/// replay the rest.
proof fn lemma_replay_unfold_left(s: ProjectAbs, events: Seq<ProjectEventAbs>)
    requires
        events.len() > 0,
    ensures
        spec_replay(s, events) == spec_replay(spec_apply_event(s, events[0]), events.drop_first()),
    decreases events.len(),
{
    reveal_with_fuel(spec_replay, 4);
    if events.len() == 1 {
        assert(events.drop_last() =~= Seq::<ProjectEventAbs>::empty());
        assert(events.drop_first() =~= Seq::<ProjectEventAbs>::empty());
    } else {
        let e0 = events[0];
        let df = events.drop_first();
        lemma_replay_unfold_left(s, events.drop_last());
        assert(events.drop_last()[0] == events[0]);
        assert(events.drop_last().drop_first() =~= df.drop_last());
        assert(df.last() == events.last());
        assert(spec_replay(s, events) == spec_apply_event(
            spec_replay(s, events.drop_last()),
            events.last(),
        ));
        assert(df.len() > 0);
        assert(spec_replay(spec_apply_event(s, e0), df) == spec_apply_event(
            spec_replay(spec_apply_event(s, e0), df.drop_last()),
            df.last(),
        ));
        assert(spec_replay(spec_apply_event(s, e0), df.drop_last()) == spec_replay(
            s,
            events.drop_last(),
        ));
    }
}

/// Replay sends two states that agree outside the run's writes to the same
/// state: what the run writes it writes identically, and what it does not
/// write already agreed.
proof fn lemma_replay_agree(s: ProjectAbs, t: ProjectAbs, events: Seq<ProjectEventAbs>)
    requires
        agree_outside_writes(s, t, events),
    ensures
        spec_replay(s, events) == spec_replay(t, events),
    decreases events.len(),
{
    if events.len() == 0 {
        assert_maps_equal!(s.members, t.members, u => {
            assert(!events_touch_user(events, u));
            assert(members_agree_at(s.members, t.members, u));
        });
        assert(s =~~= t);
    } else {
        let e0 = events[0];
        let rest = events.drop_first();
        assert(forall|j: int| 0 <= j < rest.len() ==> rest[j] == events[j + 1]);
        lemma_replay_unfold_left(s, events);
        lemma_replay_unfold_left(t, events);
        let s1 = spec_apply_event(s, e0);
        let t1 = spec_apply_event(t, e0);
        if e0 is Created {
            assert(s1.members =~= t1.members);
            assert(s1 =~~= t1);
            assert(agree_outside_writes(s1, t1, rest));
        } else {
            if events_have_created(events) {
                let i = choose|i: int| 0 <= i < events.len() && events[i] is Created;
                assert(rest[i - 1] is Created);
                assert(events_have_created(rest));
            } else {
                assert(s1.id == t1.id && s1.name == t1.name);
            }
            if !events_have_created(events) && !events_have_deleted(events) {
                assert(s1.deleted == t1.deleted);
            } else if events_have_deleted(events) && !(e0 is Deleted) {
                let i = choose|i: int| 0 <= i < events.len() && events[i] is Deleted;
                assert(rest[i - 1] is Deleted);
                assert(events_have_deleted(rest));
            }
            if !events_have_created(rest) {
                assert forall|u: UserId| !events_touch_user(rest, u) implies members_agree_at(
                    s1.members,
                    t1.members,
                    u,
                ) by {
                    if event_touches_user(e0, u) {
                    } else {
                        assert(!events_touch_user(events, u)) by {
                            if events_touch_user(events, u) {
                                let i = choose|i: int|
                                    0 <= i < events.len() && event_touches_user(events[i], u);
                                assert(i > 0);
                                assert(event_touches_user(rest[i - 1], u));
                            }
                        }
                        assert(members_agree_at(s.members, t.members, u));
                    }
                }
            }
            assert(agree_outside_writes(s1, t1, rest));
        }
        lemma_replay_agree(s1, t1, rest);
    }
}

/// Replay leaves alone what the run of events does not write.
proof fn lemma_replay_preserves_untouched(s: ProjectAbs, events: Seq<ProjectEventAbs>)
    ensures
        spec_replay(s, events).version == s.version,
        !events_have_created(events) ==> spec_replay(s, events).id == s.id && spec_replay(
            s,
            events,
        ).name == s.name,
        !events_have_created(events) && !events_have_deleted(events) ==> spec_replay(
            s,
            events,
        ).deleted == s.deleted,
        !events_have_created(events) ==> forall|u: UserId|
            !events_touch_user(events, u) ==> members_agree_at(
                spec_replay(s, events).members,
                s.members,
                u,
            ),
    decreases events.len(),
{
    if events.len() > 0 {
        let dl = events.drop_last();
        let e = events.last();
        lemma_replay_preserves_untouched(s, dl);
        assert(forall|j: int| 0 <= j < dl.len() ==> dl[j] == events[j]);
        if !events_have_created(events) {
            assert(!events_have_created(dl)) by {
                if events_have_created(dl) {
                    let i = choose|i: int| 0 <= i < dl.len() && dl[i] is Created;
                    assert(events[i] is Created);
                }
            }
            assert(!(e is Created));
            if !events_have_deleted(events) {
                assert(!events_have_deleted(dl)) by {
                    if events_have_deleted(dl) {
                        let i = choose|i: int| 0 <= i < dl.len() && dl[i] is Deleted;
                        assert(events[i] is Deleted);
                    }
                }
                assert(!(e is Deleted));
            }
            assert forall|u: UserId| !events_touch_user(events, u) implies members_agree_at(
                spec_replay(s, events).members,
                s.members,
                u,
            ) by {
                assert(!events_touch_user(dl, u)) by {
                    if events_touch_user(dl, u) {
                        let i = choose|i: int| 0 <= i < dl.len() && event_touches_user(dl[i], u);
                        assert(event_touches_user(events[i], u));
                    }
                }
                assert(!event_touches_user(e, u)) by {
                    if event_touches_user(e, u) {
                        assert(event_touches_user(events[events.len() - 1], u));
                    }
                }
                assert(members_agree_at(spec_replay(s, dl).members, s.members, u));
            }
        }
    }
}

/// Replay is idempotent: folding the same run of events into the state that
/// run already produced reproduces that state exactly.
pub proof fn lemma_replay_idempotent(snapshot: ProjectAbs, events: Seq<ProjectEventAbs>)
    ensures
        spec_replay(spec_replay(snapshot, events), events) == spec_replay(snapshot, events),
{
    let s1 = spec_replay(snapshot, events);
    if events.len() == 0 {
    } else {
        lemma_replay_preserves_untouched(snapshot, events);
        assert(agree_outside_writes(s1, snapshot, events));
        lemma_replay_agree(s1, snapshot, events);
    }
}

} // verus!

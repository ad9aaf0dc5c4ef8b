use vstd::prelude::*;

use crate::helper::IdGenerator;
use crate::project::{
    map_is_administrator, map_is_member, Member, MemberId, MemberRole, Members, Project,
    ProjectAbs, ProjectError, ProjectId, ProjectName, UserId,
};
use crate::repository::{ProjectRepository, ProjectRepositoryError};

verus! {

/// The unified failure taxonomy of the command processor: the aggregate was
/// absent, the repository failed, or a business rule rejected the command.
#[derive(Debug)]
pub enum CommandProcessError {
    NotFoundError,
    RepositoryError(ProjectRepositoryError),
    DomainLogicError(ProjectError),
}

/// The error names the executor as not an administrator.
pub open spec fn domain_rejected_not_administrator(e: ProjectError, executor_id: UserId) -> bool {
    e matches ProjectError::NotAdministratorError(f, u) && f@ == "executor_id"@ && u == executor_id
}

/// The error names the project as already deleted.
pub open spec fn domain_rejected_already_deleted(e: ProjectError, id: ProjectId) -> bool {
    e matches ProjectError::AlreadyDeletedError(pid) && pid == id
}

/// The error names the user as already a member.
pub open spec fn domain_rejected_already_member(e: ProjectError, user_id: UserId) -> bool {
    e matches ProjectError::AlreadyMemberError(f, u) && f@ == "user_id"@ && u == user_id
}

/// The error names the user as not a member.
pub open spec fn domain_rejected_not_member(e: ProjectError, user_id: UserId) -> bool {
    e matches ProjectError::NotMemberError(f, u) && f@ == "user_id"@ && u == user_id
}

/// The state a freshly created project has: the given name, the executor as
/// its sole member holding the Administrator role, the first sequence number,
/// the first version.
pub open spec fn created_state(p: ProjectAbs, id: ProjectId, name: Seq<char>, executor_id: UserId) -> bool {
    &&& p.id == id
    &&& !p.deleted
    &&& p.name == name
    &&& p.seq_nr == 1
    &&& p.version == 1
    &&& p.members.dom() == Set::<UserId>::empty().insert(executor_id)
    &&& p.members.contains_key(executor_id)
    &&& p.members[executor_id].spec_user_id() == executor_id
    &&& p.members[executor_id].spec_role() == MemberRole::Admin
}

/// The state after deleting the project `p`, stamped at time `t`.
pub open spec fn deleted_state(p: ProjectAbs, t: int) -> ProjectAbs {
    ProjectAbs { deleted: true, seq_nr: (p.seq_nr + 1) as nat, last_updated_at: t, ..p }
}

/// The state after adding the member `m` to the project `p`, stamped at `t`.
pub open spec fn member_added_state(p: ProjectAbs, m: Member, t: int) -> ProjectAbs {
    ProjectAbs {
        members: p.members.insert(m.spec_user_id(), m),
        seq_nr: (p.seq_nr + 1) as nat,
        last_updated_at: t,
        ..p
    }
}

/// The state after removing the user `u` from the project `p`, stamped at `t`.
pub open spec fn member_removed_state(p: ProjectAbs, u: UserId, t: int) -> ProjectAbs {
    ProjectAbs {
        members: p.members.remove(u),
        seq_nr: (p.seq_nr + 1) as nat,
        last_updated_at: t,
        ..p
    }
}

/// The orchestration shim between transport input and the aggregate and
/// repository: one method per use case, each a load, mutate, persist cycle.
/// It performs no business validation of its own.
pub struct ProjectCommandProcessor<TR: ProjectRepository> {
    project_repository: TR,
    idgen: IdGenerator,
}

impl<TR: ProjectRepository> ProjectCommandProcessor<TR> {
    /// The content of the underlying repository.
    pub closed spec fn model(&self) -> Map<ProjectId, ProjectAbs> {
        self.project_repository.model()
    }

    /// Well-formed: the underlying repository is.
    pub closed spec fn inv(&self) -> bool {
        self.project_repository.inv()
    }

    pub fn new(project_repository: TR) -> (r: Self)
        requires
            project_repository.inv(),
        ensures
            r.inv(),
            r.model() == project_repository.model(),
    {
        ProjectCommandProcessor { project_repository, idgen: IdGenerator::new() }
    }

    /// Creates a project with the given name, whose sole member is the
    /// executor holding the Administrator role, and persists the creation
    /// event with a first snapshot.
    pub fn create_project(&mut self, name: ProjectName, executor_id: UserId) -> (r: Result<
        ProjectId,
        CommandProcessError,
    >)
        requires
            old(self).inv(),
        ensures
            final(self).inv(),
            r matches Ok(pid) ==> final(self).model().contains_key(pid) && created_state(
                final(self).model()[pid],
                pid,
                name@,
                executor_id,
            ) && final(self).model() == old(self).model().insert(pid, final(self).model()[pid]),
            r is Err ==> final(self).model() == old(self).model(),
            r matches Err(e) ==> e is RepositoryError,
    {
        let mut members = Members::new();
        let member_id = MemberId::new(&mut self.idgen);
        let member = Member::new(member_id, executor_id, MemberRole::Admin);
        members.add_member(member);
        let (project, project_event) = Project::new(name, members, executor_id, &mut self.idgen);
        proof {
            assert(members.to_map() == Map::<UserId, Member>::empty().insert(executor_id, member));
            assert(members.to_map().dom() =~= Set::<UserId>::empty().insert(executor_id));
        }
        match self.project_repository.store(&project_event, &project) {
            Ok(_) => Ok(project_event.aggregate_id()),
            Err(e) => Err(CommandProcessError::RepositoryError(e)),
        }
    }

    /// Adds a member to the project: load, ask the aggregate, persist.
    pub fn add_member(
        &mut self,
        project_id: ProjectId,
        user_id: UserId,
        role: MemberRole,
        executor_id: UserId,
    ) -> (r: Result<ProjectId, CommandProcessError>)
        requires
            old(self).inv(),
            old(self).model().contains_key(project_id) ==> old(self).model()[project_id].seq_nr
                < usize::MAX,
        ensures
            final(self).inv(),
            r is Err ==> final(self).model() == old(self).model(),
            r matches Ok(pid) ==> pid == project_id && old(self).model().contains_key(project_id)
                && !old(self).model()[project_id].deleted && map_is_administrator(
                old(self).model()[project_id].members,
                executor_id,
            ) && !map_is_member(old(self).model()[project_id].members, user_id) && (exists|
                m: Member,
                t: int,
            |
                m.spec_user_id() == user_id && m.spec_role() == role && final(self).model() == old(
                    self,
                ).model().insert(
                    project_id,
                    member_added_state(old(self).model()[project_id], m, t),
                )),
            r matches Err(e) ==> e !is NotFoundError || !old(self).model().contains_key(project_id),
            r matches Err(e) ==> e matches CommandProcessError::DomainLogicError(d) ==> old(
                self,
            ).model().contains_key(project_id) && (old(self).model()[project_id].deleted
                || !map_is_administrator(old(self).model()[project_id].members, executor_id)
                || map_is_member(old(self).model()[project_id].members, user_id)) && (old(
                self,
            ).model()[project_id].deleted ==> domain_rejected_already_deleted(d, project_id)) && (
            !old(self).model()[project_id].deleted && !map_is_administrator(
                old(self).model()[project_id].members,
                executor_id,
            ) ==> domain_rejected_not_administrator(d, executor_id)) && (!old(
                self,
            ).model()[project_id].deleted && map_is_administrator(
                old(self).model()[project_id].members,
                executor_id,
            ) && map_is_member(old(self).model()[project_id].members, user_id)
                ==> domain_rejected_already_member(d, user_id)),
    {
        let mut project = match self.project_repository.find_by_id(&project_id) {
            Err(e) => {
                return Err(CommandProcessError::RepositoryError(e));
            },
            Ok(None) => {
                return Err(CommandProcessError::NotFoundError);
            },
            Ok(Some(p)) => p,
        };
        let member_id = MemberId::new(&mut self.idgen);
        let project_event = match project.add_member(
            member_id,
            user_id,
            role,
            executor_id,
            &mut self.idgen,
        ) {
            Ok(ev) => ev,
            Err(e) => {
                return Err(CommandProcessError::DomainLogicError(e));
            },
        };
        proof {
            let p0 = old(self).model()[project_id];
            let m = project_event@->MemberAdded_member;
            let t = project_event@.spec_occurred_at();
            assert(project@ =~~= member_added_state(p0, m, t));
        }
        match self.project_repository.store(&project_event, &project) {
            Ok(_) => Ok(project_event.aggregate_id()),
            Err(e) => Err(CommandProcessError::RepositoryError(e)),
        }
    }

    /// Removes a member from the project: load, ask the aggregate, persist.
    pub fn remove_member(
        &mut self,
        project_id: ProjectId,
        user_id: UserId,
        executor_id: UserId,
    ) -> (r: Result<ProjectId, CommandProcessError>)
        requires
            old(self).inv(),
            old(self).model().contains_key(project_id) ==> old(self).model()[project_id].seq_nr
                < usize::MAX,
        ensures
            final(self).inv(),
            r is Err ==> final(self).model() == old(self).model(),
            r matches Ok(pid) ==> pid == project_id && old(self).model().contains_key(project_id)
                && !old(self).model()[project_id].deleted && map_is_administrator(
                old(self).model()[project_id].members,
                executor_id,
            ) && map_is_member(old(self).model()[project_id].members, user_id) && (exists|t: int|
                final(self).model() == old(self).model().insert(
                    project_id,
                    member_removed_state(old(self).model()[project_id], user_id, t),
                )),
            r matches Err(e) ==> e !is NotFoundError || !old(self).model().contains_key(project_id),
            r matches Err(e) ==> e matches CommandProcessError::DomainLogicError(d) ==> old(
                self,
            ).model().contains_key(project_id) && (old(self).model()[project_id].deleted
                || !map_is_administrator(old(self).model()[project_id].members, executor_id)
                || !map_is_member(old(self).model()[project_id].members, user_id)) && (old(
                self,
            ).model()[project_id].deleted ==> domain_rejected_already_deleted(d, project_id)) && (
            !old(self).model()[project_id].deleted && !map_is_administrator(
                old(self).model()[project_id].members,
                executor_id,
            ) ==> domain_rejected_not_administrator(d, executor_id)) && (!old(
                self,
            ).model()[project_id].deleted && map_is_administrator(
                old(self).model()[project_id].members,
                executor_id,
            ) && !map_is_member(old(self).model()[project_id].members, user_id)
                ==> domain_rejected_not_member(d, user_id)),
    {
        let mut project = match self.project_repository.find_by_id(&project_id) {
            Err(e) => {
                return Err(CommandProcessError::RepositoryError(e));
            },
            Ok(None) => {
                return Err(CommandProcessError::NotFoundError);
            },
            Ok(Some(p)) => p,
        };
        let project_event = match project.remove_member(user_id, executor_id, &mut self.idgen) {
            Ok(ev) => ev,
            Err(e) => {
                return Err(CommandProcessError::DomainLogicError(e));
            },
        };
        proof {
            let p0 = old(self).model()[project_id];
            let t = project_event@.spec_occurred_at();
            assert(project@ =~~= member_removed_state(p0, user_id, t));
        }
        match self.project_repository.store(&project_event, &project) {
            Ok(_) => Ok(project_event.aggregate_id()),
            Err(e) => Err(CommandProcessError::RepositoryError(e)),
        }
    }

    /// Deletes the project: load, ask the aggregate, persist.
    pub fn delete_project(&mut self, project_id: ProjectId, executor_id: UserId) -> (r: Result<
        ProjectId,
        CommandProcessError,
    >)
        requires
            old(self).inv(),
            old(self).model().contains_key(project_id) ==> old(self).model()[project_id].seq_nr
                < usize::MAX,
        ensures
            final(self).inv(),
            r is Err ==> final(self).model() == old(self).model(),
            r matches Ok(pid) ==> pid == project_id && old(self).model().contains_key(project_id)
                && !old(self).model()[project_id].deleted && map_is_administrator(
                old(self).model()[project_id].members,
                executor_id,
            ) && (exists|t: int|
                final(self).model() == old(self).model().insert(
                    project_id,
                    deleted_state(old(self).model()[project_id], t),
                )),
            r matches Err(e) ==> e !is NotFoundError || !old(self).model().contains_key(project_id),
            r matches Err(e) ==> e matches CommandProcessError::DomainLogicError(d) ==> old(
                self,
            ).model().contains_key(project_id) && (old(self).model()[project_id].deleted
                || !map_is_administrator(old(self).model()[project_id].members, executor_id)) && (
            old(self).model()[project_id].deleted ==> domain_rejected_already_deleted(
                d,
                project_id,
            )) && (!old(self).model()[project_id].deleted && !map_is_administrator(
                old(self).model()[project_id].members,
                executor_id,
            ) ==> domain_rejected_not_administrator(d, executor_id)),
    {
        let mut project = match self.project_repository.find_by_id(&project_id) {
            Err(e) => {
                return Err(CommandProcessError::RepositoryError(e));
            },
            Ok(None) => {
                return Err(CommandProcessError::NotFoundError);
            },
            Ok(Some(p)) => p,
        };
        let project_event = match project.delete(executor_id, &mut self.idgen) {
            Ok(ev) => ev,
            Err(e) => {
                return Err(CommandProcessError::DomainLogicError(e));
            },
        };
        proof {
            let p0 = old(self).model()[project_id];
            let t = project_event@.spec_occurred_at();
            assert(project@ =~~= deleted_state(p0, t));
        }
        match self.project_repository.store(&project_event, &project) {
            Ok(_) => Ok(project_event.aggregate_id()),
            Err(e) => Err(CommandProcessError::RepositoryError(e)),
        }
    }
}

} // verus!

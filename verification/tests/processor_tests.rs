use project_command::helper::IdGenerator;
use project_command::processor::{CommandProcessError, ProjectCommandProcessor};
use project_command::project::{
    Member, MemberId, MemberRole, Members, Project, ProjectError, ProjectName, UserId,
};
use project_command::repository::{
    resolve_snapshot, resolve_store_plan, EventStoreWriteError, MockProjectRepository,
    ProjectRepository, ProjectRepositoryError, StorePlan,
};

#[test]
fn test_create_project_then_find_by_id_returns_sole_administrator() {
    let mut idgen = IdGenerator::new();
    let executor_id = UserId::new(&mut idgen);
    let mut members = Members::new();
    members.add_member(Member::new(MemberId::new(&mut idgen), executor_id, MemberRole::Admin));

    let (project, created) = Project::new(
        ProjectName::new("Test").unwrap(),
        members,
        executor_id,
        &mut idgen,
    );
    assert_eq!(project.seq_nr(), 1);
    assert!(created.is_created());

    let mut repository = MockProjectRepository::new();
    repository.store(&created, &project).unwrap();

    let found = repository.find_by_id(&project.id()).unwrap().unwrap();
    assert_eq!(found.seq_nr(), 1);
    let listed = found.members().to_vec();
    assert_eq!(listed.len(), 1);
    assert_eq!(listed[0].breach_encapsulation_of_user_id(), executor_id);
    assert_eq!(listed[0].breach_encapsulation_of_role(), MemberRole::Admin);
    assert!(found.members().is_administrator(&executor_id));
}

#[test]
fn test_processor_create_project_makes_executor_sole_administrator() {
    let mut idgen = IdGenerator::new();
    let executor_id = UserId::new(&mut idgen);
    let user_id = UserId::new(&mut idgen);
    let outsider = UserId::new(&mut idgen);
    let mut processor = ProjectCommandProcessor::new(MockProjectRepository::new());

    let project_id = processor
        .create_project(ProjectName::new("Test").unwrap(), executor_id)
        .unwrap();

    // the creator is the sole administrator of the stored project: commands
    // by anyone else are rejected, commands by the creator are accepted
    let r = processor.add_member(project_id, user_id, MemberRole::Member, outsider);
    assert!(matches!(
        r,
        Err(CommandProcessError::DomainLogicError(ProjectError::NotAdministratorError(_, _)))
    ));
    let r = processor.add_member(project_id, user_id, MemberRole::Member, executor_id);
    assert_eq!(r.unwrap(), project_id);
    let r = processor.remove_member(project_id, user_id, executor_id);
    assert_eq!(r.unwrap(), project_id);
    let r = processor.delete_project(project_id, executor_id);
    assert_eq!(r.unwrap(), project_id);
}

#[test]
fn test_non_administrator_delete_through_processor_leaves_state_unchanged() {
    let mut idgen = IdGenerator::new();
    let executor_id = UserId::new(&mut idgen);
    let outsider = UserId::new(&mut idgen);
    let mut members = Members::new();
    members.add_member(Member::new(MemberId::new(&mut idgen), executor_id, MemberRole::Admin));

    let (project, created) = Project::new(
        ProjectName::new("Test").unwrap(),
        members,
        executor_id,
        &mut idgen,
    );
    let project_id = project.id();
    let mut repository = MockProjectRepository::new();
    repository.store(&created, &project).unwrap();

    let mut processor = ProjectCommandProcessor::new(repository);
    let r = processor.delete_project(project_id, outsider);
    assert!(matches!(
        r,
        Err(CommandProcessError::DomainLogicError(ProjectError::NotAdministratorError(_, _)))
    ));

    // the stored state is unchanged: still loadable, still at seq_nr 1
    let r = processor.delete_project(project_id, executor_id);
    assert_eq!(r.unwrap(), project_id);
}

#[test]
fn test_processor_add_member_scenario() {
    let mut idgen = IdGenerator::new();
    let executor_id = UserId::new(&mut idgen);
    let user_id = UserId::new(&mut idgen);
    let mut members = Members::new();
    members.add_member(Member::new(MemberId::new(&mut idgen), executor_id, MemberRole::Admin));

    let (project, created) = Project::new(
        ProjectName::new("Test").unwrap(),
        members,
        executor_id,
        &mut idgen,
    );
    let project_id = project.id();
    let mut repository = MockProjectRepository::new();
    repository.store(&created, &project).unwrap();

    let mut processor = ProjectCommandProcessor::new(repository);
    let r = processor.add_member(project_id, user_id, MemberRole::Member, executor_id);
    assert_eq!(r.unwrap(), project_id);
}

#[test]
fn test_processor_remove_member_twice_fails_with_not_member() {
    let mut idgen = IdGenerator::new();
    let executor_id = UserId::new(&mut idgen);
    let user_id = UserId::new(&mut idgen);
    let mut members = Members::new();
    members.add_member(Member::new(MemberId::new(&mut idgen), executor_id, MemberRole::Admin));
    members.add_member(Member::new(MemberId::new(&mut idgen), user_id, MemberRole::Member));

    let (project, created) = Project::new(
        ProjectName::new("Test").unwrap(),
        members,
        executor_id,
        &mut idgen,
    );
    let project_id = project.id();
    let mut repository = MockProjectRepository::new();
    repository.store(&created, &project).unwrap();

    let mut processor = ProjectCommandProcessor::new(repository);
    let r = processor.remove_member(project_id, user_id, executor_id);
    assert_eq!(r.unwrap(), project_id);

    let r = processor.remove_member(project_id, user_id, executor_id);
    assert!(matches!(
        r,
        Err(CommandProcessError::DomainLogicError(ProjectError::NotMemberError(_, _)))
    ));
}

#[test]
fn test_processor_not_found() {
    let mut idgen = IdGenerator::new();
    let executor_id = UserId::new(&mut idgen);
    let project = {
        let mut members = Members::new();
        members.add_member(Member::new(MemberId::new(&mut idgen), executor_id, MemberRole::Admin));
        Project::new(ProjectName::new("Test").unwrap(), members, executor_id, &mut idgen).0
    };
    let unknown_id = project.id();

    let mut processor = ProjectCommandProcessor::new(MockProjectRepository::new());
    let r = processor.delete_project(unknown_id, executor_id);
    assert!(matches!(r, Err(CommandProcessError::NotFoundError)));
}

#[test]
fn test_store_stale_snapshot_is_an_optimistic_lock_conflict() {
    let mut idgen = IdGenerator::new();
    let executor_id = UserId::new(&mut idgen);
    let mut members = Members::new();
    members.add_member(Member::new(MemberId::new(&mut idgen), executor_id, MemberRole::Admin));

    let (mut project, created) = Project::new(
        ProjectName::new("Test").unwrap(),
        members,
        executor_id,
        &mut idgen,
    );
    let stale = project.clone();
    let mut repository = MockProjectRepository::new();
    repository.store(&created, &project).unwrap();

    let deleted = project.delete(executor_id, &mut idgen).unwrap();
    repository.store(&deleted, &project).unwrap();

    // a concurrent writer holding the stale snapshot is rejected
    let r = repository.store(&created, &stale);
    assert!(matches!(
        r,
        Err(ProjectRepositoryError::StoreError(_, EventStoreWriteError::OptimisticLockError))
    ));
}

#[test]
fn test_snapshot_cadence_policy() {
    // with snapshot_interval = 5: exactly the creation event and every fifth
    // sequence number persist a snapshot
    assert!(resolve_snapshot(5, true, 1));
    assert!(!resolve_snapshot(5, false, 2));
    assert!(!resolve_snapshot(5, false, 3));
    assert!(!resolve_snapshot(5, false, 4));
    assert!(resolve_snapshot(5, false, 5));
    assert!(!resolve_snapshot(5, false, 6));
    assert!(resolve_snapshot(5, false, 10));
    // with interval 1, every accepted command persists a snapshot
    assert!(resolve_snapshot(1, false, 2));
    assert!(resolve_snapshot(1, true, 1));
}

#[test]
fn test_id_generator_is_strictly_increasing() {
    let mut idgen = IdGenerator::new();
    let mut previous = idgen.generate();
    for _ in 0..100 {
        let next = idgen.generate();
        assert!(next > previous);
        previous = next;
    }
}

#[test]
fn test_resolve_store_plan_dispatch() {
    let mut idgen = IdGenerator::new();
    let executor_id = UserId::new(&mut idgen);
    let mut members = Members::new();
    members.add_member(Member::new(MemberId::new(&mut idgen), executor_id, MemberRole::Admin));

    let (mut project, created) = Project::new(
        ProjectName::new("Test").unwrap(),
        members,
        executor_id,
        &mut idgen,
    );

    // the creation event always persists a snapshot beside the event
    assert_eq!(resolve_store_plan(5, &created, &project), StorePlan::PersistEventAndSnapshot);

    // advance the aggregate to sequence numbers 2, 3, 4: the event alone is
    // appended, under the snapshot's concurrency token
    for seq in [2usize, 3, 4] {
        let user = UserId::new(&mut idgen);
        let ev = project
            .add_member(MemberId::new(&mut idgen), user, MemberRole::Member, executor_id, &mut idgen)
            .unwrap();
        assert_eq!(project.seq_nr(), seq);
        assert_eq!(resolve_store_plan(5, &ev, &project), StorePlan::PersistEvent(project.version()));
    }

    // at a multiple of the interval the snapshot goes along again
    let user = UserId::new(&mut idgen);
    let ev = project
        .add_member(MemberId::new(&mut idgen), user, MemberRole::Member, executor_id, &mut idgen)
        .unwrap();
    assert_eq!(project.seq_nr(), 5);
    assert_eq!(resolve_store_plan(5, &ev, &project), StorePlan::PersistEventAndSnapshot);
}

use project_command::helper::IdGenerator;
use project_command::project::{
    Member, MemberId, MemberRole, Members, Project, ProjectError, ProjectEvent, ProjectName, UserId,
};

fn admin_members(idgen: &mut IdGenerator, executor_id: UserId) -> Members {
    let mut members = Members::new();
    members.add_member(Member::new(MemberId::new(idgen), executor_id, MemberRole::Admin));
    members
}

#[test]
fn test_delete_project() {
    let mut idgen = IdGenerator::new();
    let executor_id = UserId::new(&mut idgen);
    let user_id = UserId::new(&mut idgen);
    let members = admin_members(&mut idgen, executor_id);

    let (mut project, _) = Project::new(
        ProjectName::new("Test").unwrap(),
        members,
        executor_id,
        &mut idgen,
    );

    let result = project.delete(user_id, &mut idgen);
    assert!(result.is_err());

    let result = project.delete(executor_id, &mut idgen);
    assert!(result.is_ok());
}

#[test]
fn test_add_member() {
    let mut idgen = IdGenerator::new();
    let executor_id = UserId::new(&mut idgen);
    let user_id = UserId::new(&mut idgen);
    let member_id = MemberId::new(&mut idgen);
    let members = admin_members(&mut idgen, executor_id);

    let (mut project, _) = Project::new(
        ProjectName::new("Test").unwrap(),
        members,
        executor_id,
        &mut idgen,
    );

    let _ = project
        .add_member(member_id, user_id, MemberRole::Member, executor_id, &mut idgen)
        .unwrap();

    assert!(project.members().is_member(&user_id));
}

#[test]
fn test_remove_member() {
    let mut idgen = IdGenerator::new();
    let executor_id = UserId::new(&mut idgen);
    let user_id = UserId::new(&mut idgen);
    let member_id = MemberId::new(&mut idgen);
    let members = admin_members(&mut idgen, executor_id);

    let (mut project, _) = Project::new(
        ProjectName::new("Test").unwrap(),
        members,
        executor_id,
        &mut idgen,
    );

    let _ = project
        .add_member(member_id, user_id, MemberRole::Member, executor_id, &mut idgen)
        .unwrap();
    let _ = project.remove_member(user_id, executor_id, &mut idgen).unwrap();

    assert!(!project.members().is_member(&user_id));
}

#[test]
fn test_seq_nr_increments_by_one_per_accepted_command() {
    let mut idgen = IdGenerator::new();
    let executor_id = UserId::new(&mut idgen);
    let user_id = UserId::new(&mut idgen);
    let members = admin_members(&mut idgen, executor_id);

    let (mut project, created) = Project::new(
        ProjectName::new("Test").unwrap(),
        members,
        executor_id,
        &mut idgen,
    );
    assert_eq!(project.seq_nr(), 1);
    assert_eq!(created.seq_nr(), 1);

    let ev = project
        .add_member(
            MemberId::new(&mut idgen),
            user_id,
            MemberRole::Member,
            executor_id,
            &mut idgen,
        )
        .unwrap();
    assert_eq!(project.seq_nr(), 2);
    assert_eq!(ev.seq_nr(), 2);

    let ev = project.remove_member(user_id, executor_id, &mut idgen).unwrap();
    assert_eq!(project.seq_nr(), 3);
    assert_eq!(ev.seq_nr(), 3);

    // a rejected command leaves the sequence number alone
    let rejected = project.remove_member(user_id, executor_id, &mut idgen);
    assert!(rejected.is_err());
    assert_eq!(project.seq_nr(), 3);

    let ev = project.delete(executor_id, &mut idgen).unwrap();
    assert_eq!(project.seq_nr(), 4);
    assert_eq!(ev.seq_nr(), 4);
}

#[test]
fn test_deleted_project_rejects_every_command() {
    let mut idgen = IdGenerator::new();
    let executor_id = UserId::new(&mut idgen);
    let user_id = UserId::new(&mut idgen);
    let members = admin_members(&mut idgen, executor_id);

    let (mut project, _) = Project::new(
        ProjectName::new("Test").unwrap(),
        members,
        executor_id,
        &mut idgen,
    );
    project.delete(executor_id, &mut idgen).unwrap();
    let seq_after_delete = project.seq_nr();

    let r = project.delete(executor_id, &mut idgen);
    assert!(matches!(r, Err(ProjectError::AlreadyDeletedError(_))));
    let r = project.add_member(
        MemberId::new(&mut idgen),
        user_id,
        MemberRole::Member,
        executor_id,
        &mut idgen,
    );
    assert!(matches!(r, Err(ProjectError::AlreadyDeletedError(_))));
    let r = project.remove_member(user_id, executor_id, &mut idgen);
    assert!(matches!(r, Err(ProjectError::AlreadyDeletedError(_))));
    assert_eq!(project.seq_nr(), seq_after_delete);
}

#[test]
fn test_add_member_already_member_and_remove_member_not_member() {
    let mut idgen = IdGenerator::new();
    let executor_id = UserId::new(&mut idgen);
    let user_id = UserId::new(&mut idgen);
    let members = admin_members(&mut idgen, executor_id);

    let (mut project, _) = Project::new(
        ProjectName::new("Test").unwrap(),
        members,
        executor_id,
        &mut idgen,
    );

    // not yet a member: removal is rejected, addition accepted
    let r = project.remove_member(user_id, executor_id, &mut idgen);
    assert!(matches!(r, Err(ProjectError::NotMemberError(_, _))));
    project
        .add_member(
            MemberId::new(&mut idgen),
            user_id,
            MemberRole::Member,
            executor_id,
            &mut idgen,
        )
        .unwrap();

    // already a member: addition is rejected, removal accepted
    let r = project.add_member(
        MemberId::new(&mut idgen),
        user_id,
        MemberRole::Member,
        executor_id,
        &mut idgen,
    );
    assert!(matches!(r, Err(ProjectError::AlreadyMemberError(_, _))));
    project.remove_member(user_id, executor_id, &mut idgen).unwrap();
}

#[test]
fn test_non_administrator_is_rejected_by_every_mutating_command() {
    let mut idgen = IdGenerator::new();
    let executor_id = UserId::new(&mut idgen);
    let outsider = UserId::new(&mut idgen);
    let plain_member = UserId::new(&mut idgen);
    let mut members = admin_members(&mut idgen, executor_id);
    members.add_member(Member::new(MemberId::new(&mut idgen), plain_member, MemberRole::Member));

    let (mut project, _) = Project::new(
        ProjectName::new("Test").unwrap(),
        members,
        executor_id,
        &mut idgen,
    );

    // an outsider and a plain member are both rejected, whatever else holds
    for bad_executor in [outsider, plain_member] {
        let r = project.delete(bad_executor, &mut idgen);
        assert!(matches!(r, Err(ProjectError::NotAdministratorError(_, _))));
        let r = project.add_member(
            MemberId::new(&mut idgen),
            UserId::new(&mut idgen),
            MemberRole::Member,
            bad_executor,
            &mut idgen,
        );
        assert!(matches!(r, Err(ProjectError::NotAdministratorError(_, _))));
        let r = project.remove_member(plain_member, bad_executor, &mut idgen);
        assert!(matches!(r, Err(ProjectError::NotAdministratorError(_, _))));
    }
    assert_eq!(project.seq_nr(), 1);
}

#[test]
fn test_replay_reproduces_direct_command_application() {
    let mut idgen = IdGenerator::new();
    let executor_id = UserId::new(&mut idgen);
    let user_id = UserId::new(&mut idgen);
    let member_id = MemberId::new(&mut idgen);
    let members = admin_members(&mut idgen, executor_id);

    let (mut project, _) = Project::new(
        ProjectName::new("Test").unwrap(),
        members,
        executor_id,
        &mut idgen,
    );
    let snapshot = project.clone();
    assert_eq!(snapshot.seq_nr(), 1);

    let ev2 = project
        .add_member(member_id, user_id, MemberRole::Member, executor_id, &mut idgen)
        .unwrap();
    assert_eq!(ev2.seq_nr(), 2);
    let ev3 = project.remove_member(user_id, executor_id, &mut idgen).unwrap();
    assert_eq!(ev3.seq_nr(), 3);

    let events: Vec<ProjectEvent> = vec![ev2, ev3];
    let replayed = Project::replay(&events, snapshot);

    assert_eq!(replayed.seq_nr(), project.seq_nr());
    assert_eq!(replayed.id(), project.id());
    assert!(!replayed.members().is_member(&user_id));
    assert!(replayed.members().is_administrator(&executor_id));
    assert_eq!(
        replayed.name().to_string(),
        project.name().to_string()
    );
}

#[test]
fn test_replay_is_deterministic_and_idempotent() {
    let mut idgen = IdGenerator::new();
    let executor_id = UserId::new(&mut idgen);
    let user_id = UserId::new(&mut idgen);
    let members = admin_members(&mut idgen, executor_id);

    let (mut project, _) = Project::new(
        ProjectName::new("Test").unwrap(),
        members,
        executor_id,
        &mut idgen,
    );
    let snapshot = project.clone();
    let ev2 = project
        .add_member(
            MemberId::new(&mut idgen),
            user_id,
            MemberRole::Member,
            executor_id,
            &mut idgen,
        )
        .unwrap();
    let events: Vec<ProjectEvent> = vec![ev2];

    let once_a = Project::replay(&events, snapshot.clone());
    let once_b = Project::replay(&events, snapshot.clone());
    let twice = Project::replay(&events, Project::replay(&events, snapshot));

    for replayed in [&once_b, &twice] {
        assert_eq!(once_a.seq_nr(), replayed.seq_nr());
        assert_eq!(once_a.id(), replayed.id());
        assert_eq!(once_a.members().to_vec().len(), replayed.members().to_vec().len());
        assert_eq!(once_a.members().is_member(&user_id), replayed.members().is_member(&user_id));
        assert_eq!(once_a.last_updated_at(), replayed.last_updated_at());
    }
}

#[test]
fn test_event_accessors_and_is_created() {
    let mut idgen = IdGenerator::new();
    let executor_id = UserId::new(&mut idgen);
    let members = admin_members(&mut idgen, executor_id);

    let (mut project, created) = Project::new(
        ProjectName::new("Test").unwrap(),
        members,
        executor_id,
        &mut idgen,
    );
    assert!(created.is_created());
    assert_eq!(created.seq_nr(), 1);
    assert_eq!(created.aggregate_id(), project.id());

    let deleted = project.delete(executor_id, &mut idgen).unwrap();
    assert!(!deleted.is_created());
    assert_eq!(deleted.aggregate_id(), project.id());
    assert_eq!(deleted.occurred_at(), project.last_updated_at());
    assert_ne!(created.id(), deleted.id());
}

#[test]
fn test_add_member_by_administrator_scenario() {
    let mut idgen = IdGenerator::new();
    let executor_id = UserId::new(&mut idgen);
    let user_id = UserId::new(&mut idgen);
    let members = admin_members(&mut idgen, executor_id);

    let (mut project, _) = Project::new(
        ProjectName::new("Test").unwrap(),
        members,
        executor_id,
        &mut idgen,
    );

    let event = project
        .add_member(
            MemberId::new(&mut idgen),
            user_id,
            MemberRole::Member,
            executor_id,
            &mut idgen,
        )
        .unwrap();

    assert_eq!(project.seq_nr(), 2);
    assert!(matches!(event, ProjectEvent::ProjectMemberAdded(_)));
    assert!(project.members().is_member(&user_id));
    assert!(!project.members().is_administrator(&user_id));
}

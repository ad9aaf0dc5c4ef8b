use project_command::helper::IdGenerator;
use project_command::interface::ProjectOut;
use project_command::project::{Member, MemberId, MemberRole, Members, UserId};

#[test]
fn test_members_lookup_by_user_and_by_record_identity() {
    let mut idgen = IdGenerator::new();
    let admin_user = UserId::new(&mut idgen);
    let plain_user = UserId::new(&mut idgen);
    let absent_user = UserId::new(&mut idgen);
    let admin_record = MemberId::new(&mut idgen);
    let plain_record = MemberId::new(&mut idgen);

    let mut members = Members::new();
    members.add_member(Member::new(admin_record, admin_user, MemberRole::Admin));
    members.add_member(Member::new(plain_record, plain_user, MemberRole::Member));

    assert!(members.is_administrator(&admin_user));
    assert!(!members.is_administrator(&plain_user));
    assert!(members.is_member(&admin_user));
    assert!(members.is_member(&plain_user));
    assert!(!members.is_member(&absent_user));

    let found = members.find_by_user_id(&plain_user).unwrap();
    assert_eq!(found.breach_encapsulation_of_id(), plain_record);
    assert_eq!(found.breach_encapsulation_of_role(), MemberRole::Member);
    assert!(members.find_by_user_id(&absent_user).is_none());

    let found = members.find_by_id(&admin_record).unwrap();
    assert_eq!(found.breach_encapsulation_of_user_id(), admin_user);
    assert!(members.find_by_id(&MemberId::new(&mut idgen)).is_none());

    assert!(members.is_role(&admin_user, &[MemberRole::Admin]));
    assert!(!members.is_role(&admin_user, &[MemberRole::Member]));
    assert!(members.is_role(&plain_user, &[MemberRole::Member, MemberRole::Admin]));
    assert!(!members.is_role(&absent_user, &[MemberRole::Member, MemberRole::Admin]));
}

#[test]
fn test_members_one_record_per_user() {
    let mut idgen = IdGenerator::new();
    let user = UserId::new(&mut idgen);
    let first_record = MemberId::new(&mut idgen);
    let second_record = MemberId::new(&mut idgen);

    let mut members = Members::new();
    members.add_member(Member::new(first_record, user, MemberRole::Member));
    members.add_member(Member::new(second_record, user, MemberRole::Admin));

    // the later record replaced the earlier one
    let listed = members.to_vec();
    assert_eq!(listed.len(), 1);
    assert_eq!(listed[0].breach_encapsulation_of_id(), second_record);
    assert!(members.is_administrator(&user));
}

#[test]
fn test_members_removal_by_both_keys() {
    let mut idgen = IdGenerator::new();
    let first_user = UserId::new(&mut idgen);
    let second_user = UserId::new(&mut idgen);
    let first_record = MemberId::new(&mut idgen);
    let second_record = MemberId::new(&mut idgen);

    let mut members = Members::new();
    members.add_member(Member::new(first_record, first_user, MemberRole::Admin));
    members.add_member(Member::new(second_record, second_user, MemberRole::Member));

    members.remove_member(&first_record);
    assert!(!members.is_member(&first_user));
    assert!(members.is_member(&second_user));

    members.remove_member_by_user_id(&second_user);
    assert!(!members.is_member(&second_user));
    assert!(members.to_vec().is_empty());

    // removing what is absent changes nothing
    members.remove_member(&first_record);
    members.remove_member_by_user_id(&first_user);
    assert!(members.to_vec().is_empty());
}

#[test]
fn test_members_to_vec_keeps_registry_order() {
    let mut idgen = IdGenerator::new();
    let mut members = Members::new();
    let mut expected: Vec<MemberId> = Vec::new();
    for _ in 0..4 {
        let record = MemberId::new(&mut idgen);
        members.add_member(Member::new(record, UserId::new(&mut idgen), MemberRole::Member));
        expected.push(record);
    }
    let listed: Vec<MemberId> =
        members.to_vec().iter().map(|m| m.breach_encapsulation_of_id()).collect();
    assert_eq!(listed, expected);
}

#[test]
fn test_project_out_carries_the_identity() {
    let out = ProjectOut::new(String::from("Project-01ETGRM6448X1HM0PYWG2KT648"));
    assert_eq!(out.project_id(), "Project-01ETGRM6448X1HM0PYWG2KT648");
}

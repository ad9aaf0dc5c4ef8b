use project_command::email::{Email, EmailError};
use project_command::helper::{IdGenerator, ParseError};
use project_command::project::{MemberId, MemberRole, ProjectId, ProjectName, ProjectNameError};
use project_command::user::{UserId, UserName, UserNameError};

#[test]
fn test_project_name_validation() {
    assert!(matches!(ProjectName::new(""), Err(ProjectNameError::Empty)));
    assert!(matches!(ProjectName::new(&"x".repeat(101)), Err(ProjectNameError::TooLong)));
    let name = ProjectName::new(&"x".repeat(100)).unwrap();
    assert_eq!(name.to_string().len(), 100);
    let name = ProjectName::new("Test").unwrap();
    assert_eq!(name.to_string(), "Test");
}

#[test]
fn test_user_name_validation() {
    assert!(matches!(UserName::new(""), Err(UserNameError::Empty)));
    assert!(matches!(UserName::new(&"y".repeat(101)), Err(UserNameError::TooLong)));
    let name = UserName::new("alice").unwrap();
    assert_eq!(name.to_string(), "alice");
}

#[test]
fn test_email_validation() {
    assert!(matches!(Email::new(""), Err(EmailError::Empty)));
    let long = format!("{}@example.com", "a".repeat(100));
    assert!(matches!(Email::new(&long), Err(EmailError::TooLong)));

    assert!(matches!(Email::new("no-separator"), Err(EmailError::InvalidFormat)));
    assert!(matches!(Email::new("@example.com"), Err(EmailError::InvalidFormat)));
    assert!(matches!(Email::new("user@"), Err(EmailError::InvalidFormat)));
    assert!(matches!(Email::new("user@.example"), Err(EmailError::InvalidFormat)));
    assert!(matches!(Email::new("user@example."), Err(EmailError::InvalidFormat)));
    assert!(matches!(Email::new("user@exa..mple"), Err(EmailError::InvalidFormat)));
    assert!(matches!(Email::new("us er@example.com"), Err(EmailError::InvalidFormat)));
    assert!(matches!(Email::new("user@exam_ple.com"), Err(EmailError::InvalidFormat)));

    let email = Email::new("first.last+tag@mail.example-host.com").unwrap();
    assert_eq!(email.to_string(), "first.last+tag@mail.example-host.com");
    assert!(Email::new("a@b").is_ok());
}

#[test]
fn test_member_role_parsing_and_rendering() {
    let admin = String::from("Admin");
    let member = String::from("Member");
    let other = String::from("Owner");
    assert_eq!(MemberRole::from_string(&admin), Ok(MemberRole::Admin));
    assert_eq!(MemberRole::from_string(&member), Ok(MemberRole::Member));
    assert_eq!(MemberRole::from_string(&other), Err(ParseError::InvalidMemberRole));
    assert_eq!(MemberRole::Admin.to_string(), "Admin");
    assert_eq!(MemberRole::Member.to_string(), "Member");
}

#[test]
fn test_identifier_rendering_carries_the_type_prefix() {
    let mut idgen = IdGenerator::new();
    let project_id = ProjectId::new(&mut idgen);
    let rendered = project_id.to_string();
    assert_eq!(rendered.len(), "Project-".len() + 26);
    assert!(rendered.starts_with("Project-"));
    assert_eq!(project_id.prefix(), "Project");

    let user_id = UserId::new(&mut idgen);
    let rendered = user_id.to_string();
    assert_eq!(rendered.len(), "User-".len() + 26);
    assert!(rendered.starts_with("User-"));
    assert_eq!(user_id.prefix(), "User");

    let member_id = MemberId::new(&mut idgen);
    assert_eq!(member_id.to_string().len(), 26);
}

#[test]
fn test_identifier_rendering_depends_on_the_value() {
    let a = ProjectId::from_ulid(1);
    let b = ProjectId::from_ulid(2);
    assert_ne!(a.to_string(), b.to_string());
    assert_eq!(a.value(), 1);
    assert_eq!(b.value(), 2);
    // the canonical rendering of a known value
    assert_eq!(
        ProjectId::from_ulid(1945195434112195390215103893317949576).to_string(),
        "Project-01ETGRM6448X1HM0PYWG2KT648"
    );
}

#[test]
fn test_user_id_round_trip_through_raw_value() {
    let mut idgen = IdGenerator::new();
    let user_id = UserId::new(&mut idgen);
    assert_eq!(UserId::from_ulid(user_id.value()), user_id);
}

#[test]
fn test_user_name_is_bounded_by_bytes() {
    // 51 characters, 102 bytes: over the byte bound although under 100
    // characters
    let wide = "\u{e9}".repeat(51);
    assert_eq!(wide.chars().count(), 51);
    assert_eq!(wide.len(), 102);
    assert!(matches!(UserName::new(&wide), Err(UserNameError::TooLong)));
    assert!(UserName::new(&"\u{e9}".repeat(50)).is_ok());
}

#[test]
fn test_email_is_bounded_by_bytes() {
    let wide = "\u{e9}".repeat(51);
    assert!(matches!(Email::new(&wide), Err(EmailError::TooLong)));
}

#[test]
fn test_identifier_parsing_round_trips() {
    let mut idgen = IdGenerator::new();

    let project_id = ProjectId::new(&mut idgen);
    assert_eq!(ProjectId::from_str(&project_id.to_string()).unwrap(), project_id);

    let user_id = UserId::new(&mut idgen);
    assert_eq!(UserId::from_str(&user_id.to_string()).unwrap(), user_id);

    let member_id = MemberId::new(&mut idgen);
    assert_eq!(MemberId::from_str(&member_id.to_string()).unwrap(), member_id);

    // the bare rendering, without the type prefix, reads back too
    assert_eq!(
        ProjectId::from_str("01ETGRM6448X1HM0PYWG2KT648").unwrap().value(),
        1945195434112195390215103893317949576
    );
    // text of the wrong length or alphabet is refused
    assert!(matches!(ProjectId::from_str(""), Err(ParseError::InvalidULID(_))));
    assert!(matches!(ProjectId::from_str("Project-"), Err(ParseError::InvalidULID(_))));
    assert!(matches!(UserId::from_str("not-an-identifier"), Err(ParseError::InvalidULID(_))));
    assert!(matches!(
        MemberId::from_str("!!ETGRM6448X1HM0PYWG2KT648"),
        Err(ParseError::InvalidULID(_))
    ));
}

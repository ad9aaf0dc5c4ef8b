use project_command::acceptance_criterion::AcceptanceCriterion;
use project_command::backlog_item::BacklogItem;
use project_command::email::Email;
use project_command::epic::Epic;
use project_command::helper::IdGenerator;
use project_command::product_backlog::ProductBacklog;
use project_command::sprint::Sprint;
use project_command::types::{Priority, Status};
use project_command::user::{User, UserError, UserName};

#[test]
fn test_acceptance_criterion_lifecycle() {
    let mut criterion = AcceptanceCriterion::new(String::from("loads under a second"));
    assert_eq!(criterion.description(), "loads under a second");
    assert_eq!(criterion.id().len(), 36);
    assert!(!criterion.is_satisfied());
    criterion.mark_satisfied();
    assert!(criterion.is_satisfied());
    criterion.mark_unsatisfied();
    assert!(!criterion.is_satisfied());
}

#[test]
fn test_backlog_item_defaults_and_setters() {
    let mut item = BacklogItem::new(String::from("login"), String::from("users can sign in"));
    assert_eq!(item.title(), "login");
    assert_eq!(item.description(), "users can sign in");
    assert_eq!(item.priority(), Priority::Medium);
    assert_eq!(item.status(), Status::Todo);
    assert_eq!(item.story_points(), None);
    assert_eq!(item.id().len(), 36);

    item.set_priority(Priority::High);
    assert_eq!(item.priority(), Priority::High);
    item.update_status(Status::InProgress);
    assert_eq!(item.status(), Status::InProgress);
    item.set_story_points(5);
    assert_eq!(item.story_points(), Some(5));
}

#[test]
fn test_backlog_item_is_complete() {
    let mut item = BacklogItem::new(String::from("login"), String::from("users can sign in"));
    // not done: incomplete even without criteria
    assert!(!item.is_complete());
    item.update_status(Status::Done);
    // done with no criteria: complete
    assert!(item.is_complete());

    let mut satisfied = AcceptanceCriterion::new(String::from("works"));
    satisfied.mark_satisfied();
    let open_criterion = AcceptanceCriterion::new(String::from("fast"));
    item.add_acceptance_criterion(satisfied);
    item.add_acceptance_criterion(open_criterion);
    // one criterion still open: incomplete
    assert!(!item.is_complete());

    let open_id = item.acceptance_criteria()[1].id().to_string();
    let removed = item.remove_acceptance_criterion(&open_id).unwrap();
    assert_eq!(removed.description(), "fast");
    assert!(item.is_complete());
    assert!(item.remove_acceptance_criterion(&open_id).is_none());
}

#[test]
fn test_product_backlog_add_remove() {
    let mut backlog = ProductBacklog::new(String::from("shop"), String::from("the web shop"));
    assert_eq!(backlog.name(), "shop");
    assert_eq!(backlog.description(), "the web shop");
    assert_eq!(backlog.id().len(), 36);

    let item = BacklogItem::new(String::from("cart"), String::from("a cart"));
    let item_id = item.id().to_string();
    backlog.add_item(item);
    assert_eq!(backlog.items().len(), 1);

    assert!(backlog.remove_item("no-such-id").is_none());
    let removed = backlog.remove_item(&item_id).unwrap();
    assert_eq!(removed.title(), "cart");
    assert!(backlog.items().is_empty());
}

#[test]
fn test_prioritize_items_orders_high_medium_low_stably() {
    let mut backlog = ProductBacklog::new(String::from("shop"), String::from("the web shop"));
    let titles_and_priorities = [
        ("a", Priority::Low),
        ("b", Priority::High),
        ("c", Priority::Medium),
        ("d", Priority::High),
        ("e", Priority::Low),
        ("f", Priority::Medium),
    ];
    for (title, priority) in titles_and_priorities {
        let mut item = BacklogItem::new(String::from(title), String::new());
        item.set_priority(priority);
        backlog.add_item(item);
    }
    backlog.prioritize_items();
    let order: Vec<String> = backlog.items().iter().map(|i| i.title().to_string()).collect();
    assert_eq!(order, vec!["b", "d", "c", "f", "a", "e"]);
}

#[test]
fn test_epic_add_remove() {
    let mut epic = Epic::new(String::from("payments"), String::from("all payment work"));
    assert_eq!(epic.title(), "payments");
    let item = BacklogItem::new(String::from("refunds"), String::new());
    let item_id = item.id().to_string();
    epic.add_backlog_item(item);
    assert_eq!(epic.backlog_items().len(), 1);
    let removed = epic.remove_backlog_item(&item_id).unwrap();
    assert_eq!(removed.title(), "refunds");
    assert!(epic.backlog_items().is_empty());
}

#[test]
fn test_sprint_window() {
    let mut sprint = Sprint::new(String::from("one"), 1_000, 2_000);
    assert_eq!(sprint.name(), "one");
    assert!(!sprint.is_active(999));
    assert!(sprint.is_active(1_000));
    assert!(sprint.is_active(1_500));
    assert!(sprint.is_active(2_000));
    assert!(!sprint.is_active(2_001));

    let item = BacklogItem::new(String::from("cart"), String::new());
    let item_id = item.id().to_string();
    sprint.add_item(item);
    assert_eq!(sprint.items().len(), 1);
    assert!(sprint.remove_item(&item_id).is_some());
    assert!(sprint.items().is_empty());
}

#[test]
fn test_priority_and_status_rendering() {
    assert_eq!(Priority::High.to_string(), "High");
    assert_eq!(Priority::Medium.to_string(), "Medium");
    assert_eq!(Priority::Low.to_string(), "Low");
    assert_eq!(Status::Todo.to_string(), "Todo");
    assert_eq!(Status::InProgress.to_string(), "In Progress");
    assert_eq!(Status::Done.to_string(), "Done");
}

#[test]
fn test_user_delete_is_terminal() {
    let mut idgen = IdGenerator::new();
    let (mut user, _created) = User::new(
        UserName::new("alice").unwrap(),
        Email::new("alice@example.com").unwrap(),
        &mut idgen,
    );
    assert_eq!(user.seq_nr(), 0);
    let deleted = user.delete().unwrap();
    assert_eq!(user.seq_nr(), 1);
    match deleted {
        project_command::user::UserEvent::UserDeleted(body) => {
            assert_eq!(body.aggregate_id, user.id());
        }
        _ => panic!("expected a deletion event"),
    }
    let again = user.delete();
    assert!(matches!(again, Err(UserError::AlreadyDeletedError(_))));
}

use sprite_ecs::repository::{
    AdvancedUserRepository, Queryable, QueryableExt, User, UserRepository,
};

fn names(users: &[&User]) -> Vec<String> {
    users.iter().map(|u| u.name.clone()).collect()
}

#[test]
fn repository_holds_three_users() {
    let repo = UserRepository::new();
    assert_eq!(repo.count(), 3);
    assert_eq!(names(&repo.find_all()), vec!["Alice", "Bob", "Charlie"]);
    let ages: Vec<u32> = repo.find_all().iter().map(|u| u.age).collect();
    assert_eq!(ages, vec![30, 25, 35]);
}

#[test]
fn repository_finds_by_index() {
    let repo = UserRepository::new();
    assert_eq!(repo.find_by_id(1).map(|u| u.name.as_str()), Some("Bob"));
    assert_eq!(repo.find_by_id(1).map(|u| u.age), Some(25));
    assert!(repo.find_by_id(3).is_none());
    assert!(repo.find_by_id(u32::MAX).is_none());
}

#[test]
fn repository_filters_in_order() {
    let repo = UserRepository::new();
    assert_eq!(names(&repo.filter(|u| u.age > 30)), vec!["Charlie"]);
    assert_eq!(names(&repo.filter(|u| u.age >= 30)), vec!["Alice", "Charlie"]);
    assert!(repo.filter(|u| u.age > 40).is_empty());
    assert_eq!(repo.filter(|_| true).len(), 3);
}

#[test]
fn advanced_repository_inserts_at_next_id() {
    let mut repo = AdvancedUserRepository::new();
    let id = repo.insert(User { name: "David".to_string(), age: 28 });
    assert_eq!(id, 3);
    assert_eq!(repo.find_by_id(id).map(|u| u.name.as_str()), Some("David"));
    assert_eq!(repo.insert(User { name: "Eve".to_string(), age: 41 }), 4);
    assert_eq!(repo.count(), 5);
}

#[test]
fn advanced_repository_updates_in_place() {
    let mut repo = AdvancedUserRepository::new();
    assert!(repo.update(1, |u| u.age += 1));
    assert_eq!(repo.find_by_id(1).map(|u| u.age), Some(26));
    assert_eq!(repo.find_by_id(0).map(|u| u.age), Some(30));
    assert!(!repo.update(3, |u| u.age = 0));
    assert_eq!(repo.count(), 3);
}

#[test]
fn advanced_repository_deletes_and_shifts() {
    let mut repo = AdvancedUserRepository::new();
    assert!(repo.delete(0));
    assert_eq!(names(&repo.find_all()), vec!["Bob", "Charlie"]);
    assert_eq!(repo.find_by_id(0).map(|u| u.name.as_str()), Some("Bob"));
    assert!(!repo.delete(2));
    assert_eq!(repo.count(), 2);
    assert_eq!(repo.insert(User { name: "Zed".to_string(), age: 1 }), 3);
    assert_eq!(names(&repo.filter(|u| u.age < 30)), vec!["Bob", "Zed"]);
}

#[test]
fn extended_queries_follow_the_filter() {
    let repo = UserRepository::new();
    assert_eq!(repo.find_first(|u| u.age > 26).map(|u| u.name.as_str()), Some("Alice"));
    assert_eq!(repo.find_first(|u| u.age > 30).map(|u| u.name.as_str()), Some("Charlie"));
    assert!(repo.find_first(|u| u.age > 35).is_none());
    assert!(repo.exists_where(|u| u.name == "Alice"));
    assert!(!repo.exists_where(|u| u.name == "Dave"));
    assert_eq!(repo.count_where(|u| u.age < 30), 1);
    assert_eq!(repo.count_where(|u| u.age >= 30), 2);
    assert_eq!(repo.count_where(|_| false), 0);
}

#[test]
fn extended_queries_see_changes() {
    let mut repo = AdvancedUserRepository::new();
    assert_eq!(repo.next_id(), 3);
    repo.insert(User { name: "Dave".to_string(), age: 17 });
    assert_eq!(repo.next_id(), 4);
    assert!(repo.exists_where(|u| u.age < 18));
    assert!(repo.delete(3));
    assert!(!repo.exists_where(|u| u.age < 18));
    assert_eq!(repo.next_id(), 4);
}

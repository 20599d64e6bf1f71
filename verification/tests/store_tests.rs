//! The stored table: upsert semantics on concrete record lists.

use rating_sync::dto::User;
use rating_sync::pipeline::PersistRepository;
use rating_sync::store::UserTable;

fn record(key: &str, algo: Option<i32>) -> User {
    User {
        trap_account_name: String::from(key),
        atcoder_account_name: algo.map(|_| format!("{}_ac", key)),
        atcoder_rating: algo,
        heuristic_rating: algo.map(|_| 0),
        is_algo_team: Some(true),
        is_active: Some(true),
        grade: None,
    }
}

#[test]
fn test_upsert_inserts_and_get_finds() {
    let mut table = UserTable::new();
    table.upsert(&vec![record("alice", Some(1200)), record("bob", None)]);
    let found = table.get(&String::from("alice")).cloned();
    assert_eq!(found, Some(record("alice", Some(1200))));
    assert_eq!(table.get(&String::from("carol")), None);
}

#[test]
fn test_upsert_overwrites_existing_key() {
    let mut table = UserTable::new();
    table.upsert(&vec![record("alice", Some(1200))]);
    table.upsert(&vec![record("alice", Some(1500))]);
    let found = table.get(&String::from("alice")).cloned();
    assert_eq!(found, Some(record("alice", Some(1500))));
    assert_eq!(table.users().len(), 1);
}

#[test]
fn test_upsert_idempotent() {
    let mut once = UserTable::new();
    once.upsert(&vec![record("seed", Some(1))]);
    let mut twice = UserTable::new();
    twice.upsert(&vec![record("seed", Some(1))]);
    let records = vec![record("alice", Some(1200)), record("bob", None)];
    once.upsert(&records);
    twice.upsert(&records);
    twice.upsert(&records);
    assert_eq!(once.users(), twice.users());
}

#[test]
fn test_upsert_never_deletes() {
    let mut table = UserTable::new();
    table.upsert(&vec![record("old_member", Some(800))]);
    table.upsert(&vec![record("new_member", Some(900))]);
    assert!(table.get(&String::from("old_member")).is_some());
    assert!(table.get(&String::from("new_member")).is_some());
    assert_eq!(table.users().len(), 2);
}

#[test]
fn test_upsert_later_record_wins_within_one_call() {
    let mut table = UserTable::new();
    table.upsert(&vec![record("alice", Some(100)), record("alice", Some(200))]);
    let found = table.get(&String::from("alice")).cloned();
    assert_eq!(found, Some(record("alice", Some(200))));
    assert_eq!(table.users().len(), 1);
}

#[test]
fn test_storage_contract_on_in_memory_table() {
    let mut table = UserTable::new();
    table.set_users(vec![record("a", Some(42))]).unwrap();
    let listed = table.get_users().unwrap();
    assert_eq!(listed, table.users());
    let one = table.get_user(&String::from("a")).unwrap();
    assert_eq!(one, Some(record("a", Some(42))));
}

#[test]
fn test_users_lists_all_rows() {
    let mut table = UserTable::new();
    table.upsert(&vec![record("a", None), record("b", Some(5))]);
    let users = table.users();
    assert_eq!(users.len(), 2);
    assert!(users.contains(&record("a", None)));
    assert!(users.contains(&record("b", Some(5))));
}

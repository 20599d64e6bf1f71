//! The merge rules on concrete source results.

use rating_sync::entity::{
    AcDetailedInfo, AccountDetail, ContestResult, TrapMember, TrapMemberWithAcAccount,
};
use rating_sync::dto::User;
use rating_sync::merge::{collect_account_names, merge_users};

fn contest(new_rating: i32) -> ContestResult {
    ContestResult {
        is_rated: true,
        place: 100,
        old_rating: 0,
        new_rating,
        diff: new_rating,
        performance: new_rating,
        contest_screen_name: String::from("abc001.contest.example"),
        contest_name: String::from("Beginner Contest 001"),
        end_time: String::from("2023-01-22T23:00:00+09:00"),
    }
}

fn member(key: &str, account: Option<&str>) -> TrapMemberWithAcAccount {
    TrapMemberWithAcAccount {
        trap_account_name: String::from(key),
        ac_account_name: account.map(String::from),
    }
}

fn roster_entry(key: &str, active: bool, team: bool, grade: Option<&str>) -> TrapMember {
    TrapMember {
        trap_account_name: String::from(key),
        is_active: active,
        is_algo_team: team,
        grade: grade.map(String::from),
    }
}

fn detail(name: &str, algo: Vec<ContestResult>, heur: Vec<ContestResult>) -> AccountDetail {
    AccountDetail {
        ac_account_name: String::from(name),
        info: AcDetailedInfo { algo_rating: algo, heur_rating: heur },
    }
}

#[test]
fn test_merge_full_record() {
    let roster = vec![roster_entry("alice", true, true, Some("21B"))];
    let linkage = vec![member("alice", Some("alice_ac"))];
    let details = vec![detail("alice_ac", vec![contest(800), contest(1200)], vec![])];
    let merged = merge_users(&roster, &linkage, &details);
    assert_eq!(merged.len(), 1);
    let expected = User {
        trap_account_name: String::from("alice"),
        atcoder_account_name: Some(String::from("alice_ac")),
        atcoder_rating: Some(1200),
        heuristic_rating: Some(0),
        is_algo_team: Some(true),
        is_active: Some(true),
        grade: Some(String::from("21B")),
    };
    assert_eq!(merged[0], expected);
}

#[test]
fn test_merge_unlinked_without_roster_match() {
    let roster: Vec<TrapMember> = vec![];
    let linkage = vec![member("bob", None)];
    let details: Vec<AccountDetail> = vec![];
    let merged = merge_users(&roster, &linkage, &details);
    assert_eq!(merged.len(), 1);
    let expected = User {
        trap_account_name: String::from("bob"),
        atcoder_account_name: None,
        atcoder_rating: None,
        heuristic_rating: None,
        is_algo_team: None,
        is_active: None,
        grade: None,
    };
    assert_eq!(merged[0], expected);
}

#[test]
fn test_merge_unlinked_ratings_absent_not_zero() {
    let roster = vec![roster_entry("carol", true, false, None)];
    let linkage = vec![member("carol", None)];
    let details: Vec<AccountDetail> = vec![];
    let merged = merge_users(&roster, &linkage, &details);
    assert_eq!(merged[0].atcoder_rating, None);
    assert_eq!(merged[0].heuristic_rating, None);
    assert_eq!(merged[0].is_active, Some(true));
}

#[test]
fn test_merge_empty_histories_default_to_zero() {
    let roster = vec![roster_entry("dave", false, false, None)];
    let linkage = vec![member("dave", Some("dave_ac"))];
    let details = vec![detail("dave_ac", vec![], vec![])];
    let merged = merge_users(&roster, &linkage, &details);
    assert_eq!(merged[0].atcoder_rating, Some(0));
    assert_eq!(merged[0].heuristic_rating, Some(0));
}

#[test]
fn test_merge_no_roster_match_leaves_roster_fields_absent() {
    let roster = vec![roster_entry("someone_else", true, true, Some("21B"))];
    let linkage = vec![member("erin", Some("erin_ac"))];
    let details = vec![detail("erin_ac", vec![contest(900)], vec![contest(700)])];
    let merged = merge_users(&roster, &linkage, &details);
    assert_eq!(merged[0].is_active, None);
    assert_eq!(merged[0].is_algo_team, None);
    assert_eq!(merged[0].grade, None);
    assert_eq!(merged[0].atcoder_rating, Some(900));
    assert_eq!(merged[0].heuristic_rating, Some(700));
}

#[test]
fn test_merge_keys_follow_linkage() {
    let roster = vec![roster_entry("alice", true, true, None)];
    let linkage = vec![
        member("alice", Some("alice_ac")),
        member("bob", None),
        member("carol", Some("carol_ac")),
    ];
    let details: Vec<AccountDetail> = vec![];
    let merged = merge_users(&roster, &linkage, &details);
    assert_eq!(merged.len(), 3);
    for (record, entry) in merged.iter().zip(linkage.iter()) {
        assert_eq!(record.trap_account_name, entry.trap_account_name);
    }
}

#[test]
fn test_merge_deterministic() {
    let roster = vec![roster_entry("alice", true, false, Some("22M"))];
    let linkage = vec![member("alice", Some("alice_ac")), member("bob", None)];
    let details = vec![detail("alice_ac", vec![contest(1500)], vec![])];
    let first = merge_users(&roster, &linkage, &details);
    let second = merge_users(&roster, &linkage, &details);
    assert_eq!(first, second);
}

#[test]
fn test_collect_account_names_distinct() {
    let linkage = vec![
        member("a", Some("x")),
        member("b", None),
        member("c", Some("y")),
        member("d", Some("x")),
    ];
    let names = collect_account_names(&linkage);
    assert_eq!(names, vec![String::from("x"), String::from("y")]);
}

#[test]
fn test_collect_account_names_empty() {
    let linkage = vec![member("a", None), member("b", None)];
    let names = collect_account_names(&linkage);
    assert!(names.is_empty());
}

//! One full pipeline pass against in-memory collaborators.

use rating_sync::entity::{
    AcDetailedInfo, AccountDetail, ContestResult, TrapMember, TrapMemberWithAcAccount,
};
use rating_sync::pipeline::{
    DetailedInfoUpdater, PersistRepository, PipelineError, SourceError, TrapMemberAcAccountUpdater,
    TraqRepository, Updater,
};
use rating_sync::store::UserTable;

struct FixedRoster {
    members: Vec<TrapMember>,
}

impl TraqRepository for FixedRoster {
    fn get_members(&self) -> Result<Vec<TrapMember>, SourceError> {
        Ok(self.members.clone())
    }
}

struct FailingRoster;

impl TraqRepository for FailingRoster {
    fn get_members(&self) -> Result<Vec<TrapMember>, SourceError> {
        Err(SourceError { message: String::from("roster unavailable") })
    }
}

struct FixedLinkage {
    entries: Vec<TrapMemberWithAcAccount>,
}

impl TrapMemberAcAccountUpdater for FixedLinkage {
    fn get(&self) -> Result<Vec<TrapMemberWithAcAccount>, SourceError> {
        Ok(self.entries.clone())
    }
}

struct FixedDetails {
    details: Vec<AccountDetail>,
}

impl DetailedInfoUpdater for FixedDetails {
    fn get(&self, _usernames: Vec<String>) -> Result<Vec<AccountDetail>, SourceError> {
        Ok(self.details.clone())
    }
}

struct FailingDetails;

impl DetailedInfoUpdater for FailingDetails {
    fn get(&self, _usernames: Vec<String>) -> Result<Vec<AccountDetail>, SourceError> {
        Err(SourceError { message: String::from("unexpected status") })
    }
}

fn contest(new_rating: i32) -> ContestResult {
    ContestResult {
        is_rated: true,
        place: 10,
        old_rating: 0,
        new_rating,
        diff: new_rating,
        performance: new_rating,
        contest_screen_name: String::from("arc001.contest.example"),
        contest_name: String::from("Regular Contest 001"),
        end_time: String::from("2023-01-22T23:00:00+09:00"),
    }
}

fn alice_sources() -> (FixedRoster, FixedLinkage, FixedDetails) {
    let roster = FixedRoster {
        members: vec![TrapMember {
            trap_account_name: String::from("alice"),
            is_active: true,
            is_algo_team: true,
            grade: Some(String::from("21B")),
        }],
    };
    let linkage = FixedLinkage {
        entries: vec![TrapMemberWithAcAccount {
            trap_account_name: String::from("alice"),
            ac_account_name: Some(String::from("alice_ac")),
        }],
    };
    let details = FixedDetails {
        details: vec![AccountDetail {
            ac_account_name: String::from("alice_ac"),
            info: AcDetailedInfo {
                algo_rating: vec![contest(800), contest(1200)],
                heur_rating: vec![],
            },
        }],
    };
    (roster, linkage, details)
}

#[test]
fn test_update_persists_merged_snapshot() {
    let (roster, linkage, details) = alice_sources();
    let mut updater = Updater::new(details, linkage, roster, UserTable::new());
    assert!(updater.update().is_ok());
    let stored = updater
        .persist_repository
        .get_user(&String::from("alice"))
        .unwrap()
        .expect("alice must be stored");
    assert_eq!(stored.atcoder_account_name, Some(String::from("alice_ac")));
    assert_eq!(stored.atcoder_rating, Some(1200));
    assert_eq!(stored.heuristic_rating, Some(0));
    assert_eq!(stored.is_algo_team, Some(true));
    assert_eq!(stored.is_active, Some(true));
    assert_eq!(stored.grade, Some(String::from("21B")));
}

#[test]
fn test_update_rating_failure_leaves_store_untouched() {
    let (r0, l0, d0) = alice_sources();
    let mut first = Updater::new(d0, l0, r0, UserTable::new());
    assert!(first.update().is_ok());
    let seeded = first.persist_repository;
    let before = seeded.users();
    let (roster, linkage, _details) = alice_sources();
    let mut updater = Updater::new(FailingDetails, linkage, roster, seeded);
    let result = updater.update();
    assert!(matches!(result, Err(PipelineError::RatingFetch(_))));
    assert_eq!(updater.persist_repository.users(), before);
}

#[test]
fn test_update_roster_failure_aborts_run() {
    let (_roster, linkage, details) = alice_sources();
    let mut updater = Updater::new(details, linkage, FailingRoster, UserTable::new());
    let result = updater.update();
    assert!(matches!(result, Err(PipelineError::RosterFetch(_))));
    assert!(updater.persist_repository.users().is_empty());
}

#[test]
fn test_rerun_with_unchanged_sources_is_identical() {
    let (roster, linkage, details) = alice_sources();
    let mut updater = Updater::new(details, linkage, roster, UserTable::new());
    assert!(updater.update().is_ok());
    let first = updater.persist_repository.users();
    assert!(updater.update().is_ok());
    let second = updater.persist_repository.users();
    assert_eq!(first, second);
}

//! The aggregation pipeline: one full synchronization pass.
//!
//! The pipeline queries the roster, the linkage and the rating source in
//! strict order, merges their results keyed by member identity and hands
//! the complete record set to storage in one bulk upsert. Any stage
//! failure aborts the run before storage is touched; a run is
//! all-or-nothing with respect to durable state.

use vstd::prelude::*;
use crate::entity::{TrapMember, TrapMemberWithAcAccount, AccountDetail};
use crate::dto::User;
use crate::merge::{merge_users, merged_records, collect_account_names};
use crate::store::user_map;

verus! {

/// A fetch from one external source failed at the network or protocol
/// level. Fatal to the current run.
#[derive(Debug, Clone, PartialEq, Eq)]
pub struct SourceError {
    pub message: String,
}

/// A storage write failed. The previous snapshot stays authoritative.
#[derive(Debug, Clone, PartialEq, Eq)]
pub struct StoreError {
    pub message: String,
}

/// Why one synchronization run aborted; each variant names the stage that
/// failed.
#[derive(Debug, Clone, PartialEq, Eq)]
pub enum PipelineError {
    RosterFetch(SourceError),
    LinkageFetch(SourceError),
    RatingFetch(SourceError),
    Store(StoreError),
}

/// The roster source: the current member list with activity, team and
/// grade attributes resolved. Implementations promise nothing about the
/// list they return; the pipeline is verified for every outcome.
pub trait TraqRepository: Sized {
    fn get_members(&self) -> Result<Vec<TrapMember>, SourceError>;
}

/// The linkage source: one entry per roster member, carrying the linked
/// external account name if there is one.
pub trait TrapMemberAcAccountUpdater: Sized {
    fn get(&self) -> Result<Vec<TrapMemberWithAcAccount>, SourceError>;
}

/// The rating source: the two-category contest history for each requested
/// account name.
pub trait DetailedInfoUpdater: Sized {
    fn get(&self, usernames: Vec<String>) -> Result<Vec<AccountDetail>, SourceError>;
}

/// Durable storage of merged records, keyed by `trap_account_name`.
///
/// `table` is the stored state an implementation exposes to contracts. A
/// bulk write either applies the whole record list as an upsert or leaves
/// the table untouched; rows are never deleted by a write.
pub trait PersistRepository: Sized {
    /// The stored state. Unless an implementation says more, the state is
    /// some unspecified map of records.
    open spec fn table(&self) -> Map<Seq<char>, User> {
        vstd::pervasive::arbitrary()
    }

    fn get_users(&self) -> (r: Result<Vec<User>, StoreError>)
        ensures
            r matches Ok(users) ==> user_map(users@) == self.table(),
    ;

    fn get_user(&self, trap_account_name: &String) -> (r: Result<Option<User>, StoreError>)
        ensures
            match r {
                Ok(Some(u)) => self.table().contains_key(trap_account_name@) && u
                    == self.table()[trap_account_name@],
                Ok(None) => !self.table().contains_key(trap_account_name@),
                Err(_) => true,
            },
    ;

    fn set_users(&mut self, users: Vec<User>) -> (r: Result<(), StoreError>)
        ensures
            r is Ok ==> final(self).table() == old(self).table().union_prefer_right(user_map(
                users@)),
            r is Err ==> final(self).table() == old(self).table(),
    ;
}

/// The pipeline over its four collaborators.
pub struct Updater<
    DU: DetailedInfoUpdater,
    AU: TrapMemberAcAccountUpdater,
    TR: TraqRepository,
    PR: PersistRepository,
> {
    pub detail_updater: DU,
    pub account_updater: AU,
    pub traq_repository: TR,
    pub persist_repository: PR,
}

impl<DU, AU, TR, PR> Updater<DU, AU, TR, PR> where
    DU: DetailedInfoUpdater,
    AU: TrapMemberAcAccountUpdater,
    TR: TraqRepository,
    PR: PersistRepository,
 {
    /// Assembles a pipeline from its collaborators.
    pub fn new(
        detail_updater: DU,
        account_updater: AU,
        traq_repository: TR,
        persist_repository: PR,
    ) -> (r: Self)
        ensures
            r.detail_updater == detail_updater,
            r.account_updater == account_updater,
            r.traq_repository == traq_repository,
            r.persist_repository == persist_repository,
    {
        Updater { detail_updater, account_updater, traq_repository, persist_repository }
    }

    /// One full synchronization pass.
    ///
    /// On success, storage received exactly one bulk upsert of the record
    /// set merged from what the three sources returned. On any failure the
    /// run aborted without changing the stored table, whichever stage
    /// failed.
    pub fn update(&mut self) -> (r: Result<(), PipelineError>)
        ensures
            r is Err ==> final(self).persist_repository.table() == old(
                self).persist_repository.table(),
            r is Ok ==> exists|
                roster: Seq<TrapMember>,
                linkage: Seq<TrapMemberWithAcAccount>,
                details: Seq<AccountDetail>,
            |
                final(self).persist_repository.table() == old(
                self).persist_repository.table().union_prefer_right(user_map(
                #[trigger] merged_records(roster, linkage, details))),
    {
        let roster = match self.traq_repository.get_members() {
            Ok(members) => members,
            Err(e) => {
                return Err(PipelineError::RosterFetch(e));
            },
        };
        let linkage = match self.account_updater.get() {
            Ok(linked) => linked,
            Err(e) => {
                return Err(PipelineError::LinkageFetch(e));
            },
        };
        let usernames = collect_account_names(&linkage);
        let details = match self.detail_updater.get(usernames) {
            Ok(infos) => infos,
            Err(e) => {
                return Err(PipelineError::RatingFetch(e));
            },
        };
        let users = merge_users(&roster, &linkage, &details);
        let ghost users_view = users@;
        let ghost roster_view = roster@;
        let ghost linkage_view = linkage@;
        let ghost details_view = details@;
        match self.persist_repository.set_users(users) {
            Ok(u) => {
                proof {
                    assert(self.persist_repository.table() == old(
                    self).persist_repository.table().union_prefer_right(user_map(
                    merged_records(roster_view, linkage_view, details_view))));
                }
                Ok(u)
            },
            Err(e) => Err(PipelineError::Store(e)),
        }
    }
}

} // verus!

//! Core data carried between the pipeline stages.
//!
//! `memberKey` — here `trap_account_name` — is the sole join key across the
//! three sources. All fields are plain values; the transport layer converts
//! its wire types into these before the pipeline sees them.

use vstd::prelude::*;

verus! {

/// One roster member with a possibly linked external contest account.
/// Produced by the linkage source; drives the merge enumeration.
#[derive(Debug, Clone, PartialEq, Eq)]
pub struct TrapMemberWithAcAccount {
    pub trap_account_name: String,
    pub ac_account_name: Option<String>,
}

/// One organization member as the roster source reports it.
#[derive(Debug, Clone, PartialEq, Eq)]
pub struct TrapMember {
    pub trap_account_name: String,
    pub is_active: bool,
    pub is_algo_team: bool,
    pub grade: Option<String>,
}

/// Ordered contest-result history of one external account, one sequence per
/// rating category. The source order is kept; only the last entry decides
/// the current rating.
#[derive(Debug, Clone, PartialEq, Eq)]
pub struct AcDetailedInfo {
    pub algo_rating: Vec<ContestResult>,
    pub heur_rating: Vec<ContestResult>,
}

/// One entry of a contest-result history. `diff` is always
/// `new_rating - old_rating`.
#[derive(Debug, Clone, PartialEq, Eq)]
pub struct ContestResult {
    pub is_rated: bool,
    pub place: i32,
    pub old_rating: i32,
    pub new_rating: i32,
    pub diff: i32,
    pub performance: i32,
    pub contest_screen_name: String,
    pub contest_name: String,
    pub end_time: String,
}

/// The two-category history of one external account, keyed by the account
/// name it was fetched for. The pipeline carries one entry per distinct
/// linked account name.
#[derive(Debug, Clone, PartialEq, Eq)]
pub struct AccountDetail {
    pub ac_account_name: String,
    pub info: AcDetailedInfo,
}

/// One contest as the rating source lists it.
#[derive(Debug, Clone, PartialEq, Eq)]
pub struct Contest {
    pub contest_name: String,
    pub contest_url: String,
    pub set_at: String,
}

/// Copies an optional string, keeping its value.
pub fn clone_opt_string(s: &Option<String>) -> (r: Option<String>)
    ensures
        r == *s,
{
    match s {
        Some(v) => Some(v.clone()),
        None => None,
    }
}

} // verus!

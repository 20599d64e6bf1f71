//! The persisted unit: one denormalized record per linked member.

use vstd::prelude::*;
use crate::entity::clone_opt_string;

verus! {

/// The merged record that storage keeps, keyed by `trap_account_name`.
///
/// Every optional field is genuinely optional: a rating is present iff an
/// external account is linked, the roster-derived fields are present iff a
/// roster entry matches, and `grade` also needs that entry to carry one.
#[derive(Debug, Clone, PartialEq, Eq)]
pub struct User {
    pub trap_account_name: String,
    pub atcoder_account_name: Option<String>,
    pub atcoder_rating: Option<i32>,
    pub heuristic_rating: Option<i32>,
    pub is_algo_team: Option<bool>,
    pub is_active: Option<bool>,
    pub grade: Option<String>,
}

/// Copies one merged record, keeping every field value.
pub fn clone_user(u: &User) -> (r: User)
    ensures
        r == *u,
{
    User {
        trap_account_name: u.trap_account_name.clone(),
        atcoder_account_name: clone_opt_string(&u.atcoder_account_name),
        atcoder_rating: u.atcoder_rating,
        heuristic_rating: u.heuristic_rating,
        is_algo_team: u.is_algo_team,
        is_active: u.is_active,
        grade: clone_opt_string(&u.grade),
    }
}

/// The algorithmic rating a stored lookup result exposes: `None` both for
/// an unknown member and for a member without a linked account.
pub fn algo_rate_of(user: &Option<User>) -> (r: Option<i32>)
    ensures
        r == match *user {
            Some(u) => u.atcoder_rating,
            None => None::<i32>,
        },
{
    match user {
        Some(u) => u.atcoder_rating,
        None => None,
    }
}

/// The heuristic rating a stored lookup result exposes, under the same
/// rule as [`algo_rate_of`].
pub fn heur_rate_of(user: &Option<User>) -> (r: Option<i32>)
    ensures
        r == match *user {
            Some(u) => u.heuristic_rating,
            None => None::<i32>,
        },
{
    match user {
        Some(u) => u.heuristic_rating,
        None => None,
    }
}

} // verus!

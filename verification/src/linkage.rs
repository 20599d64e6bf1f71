//! Linkage extraction: which external contest account, if any, a member's
//! portfolio lists.

use vstd::prelude::*;
use crate::entity::TrapMemberWithAcAccount;

verus! {

/// The account-type identifier under which the portfolio lists an external
/// contest account.
pub const TRAPORTFOLIO_AC_ACCOUNT_TYPE_ID: i32 = 8;

/// One account entry of a member's portfolio.
#[derive(Debug, Clone, PartialEq, Eq)]
pub struct PortfolioAccount {
    pub account_type: i32,
    pub display_name: String,
}

/// The display name of the first portfolio entry of the external contest
/// account type, if any.
pub open spec fn ac_account_of(accounts: Seq<PortfolioAccount>) -> Option<String>
    decreases accounts.len(),
{
    if accounts.len() == 0 {
        None
    } else if accounts[0].account_type == TRAPORTFOLIO_AC_ACCOUNT_TYPE_ID {
        Some(accounts[0].display_name)
    } else {
        ac_account_of(accounts.drop_first())
    }
}

/// Extracts the linked external contest account name from a portfolio.
pub fn extract_ac_account(accounts: &Vec<PortfolioAccount>) -> (r: Option<String>)
    ensures
        r == ac_account_of(accounts@),
{
    let mut idx: usize = 0;
    proof {
        assert(accounts@.skip(0) =~= accounts@);
    }
    while idx < accounts.len()
        invariant
            idx <= accounts@.len(),
            ac_account_of(accounts@) == ac_account_of(accounts@.skip(idx as int)),
        decreases accounts@.len() - idx,
    {
        proof {
            assert(accounts@.skip(idx as int)[0] == accounts@[idx as int]);
            assert(accounts@.skip(idx as int).drop_first() =~= accounts@.skip(idx as int + 1));
        }
        if accounts[idx].account_type == TRAPORTFOLIO_AC_ACCOUNT_TYPE_ID {
            return Some(accounts[idx].display_name.clone());
        }
        idx = idx + 1;
    }
    None
}

/// Builds one linkage entry from a member's name and portfolio.
pub fn linked_account_of(
    trap_account_name: String,
    accounts: &Vec<PortfolioAccount>,
) -> (m: TrapMemberWithAcAccount)
    ensures
        m.trap_account_name == trap_account_name,
        m.ac_account_name == ac_account_of(accounts@),
{
    TrapMemberWithAcAccount {
        trap_account_name,
        ac_account_name: extract_ac_account(accounts),
    }
}

} // verus!

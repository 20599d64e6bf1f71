//! The merge: one record per linkage entry, joined with the roster and the
//! rating histories by `trap_account_name` and account name.
//!
//! The linkage list drives the enumeration: the merged set holds exactly
//! one record per linkage entry, in linkage order. Roster-derived fields
//! are absent when no roster entry matches; rating fields are absent when
//! no account is linked, and default to `0` when the linked account has an
//! empty history in a category.

use vstd::prelude::*;
use crate::entity::{TrapMember, TrapMemberWithAcAccount, AcDetailedInfo, AccountDetail,
    clone_opt_string};
use crate::dto::User;
use crate::rating::{latest_rating, latest_rating_spec};

verus! {

/// The first roster entry whose key equals `key`, if any. Keys are unique
/// in a well-formed roster, so "first" is then the only one.
pub open spec fn roster_lookup(roster: Seq<TrapMember>, key: Seq<char>) -> Option<TrapMember>
    decreases roster.len(),
{
    if roster.len() == 0 {
        None
    } else if roster[0].trap_account_name@ == key {
        Some(roster[0])
    } else {
        roster_lookup(roster.drop_first(), key)
    }
}

/// The first fetched history whose account name equals `name`, if any.
pub open spec fn detail_lookup(details: Seq<AccountDetail>, name: Seq<char>) -> Option<
    AcDetailedInfo,
>
    decreases details.len(),
{
    if details.len() == 0 {
        None
    } else if details[0].ac_account_name@ == name {
        Some(details[0].info)
    } else {
        detail_lookup(details.drop_first(), name)
    }
}

/// A lookup misses exactly when no entry carries the key.
pub proof fn lemma_roster_lookup_none(roster: Seq<TrapMember>, key: Seq<char>)
    ensures
        roster_lookup(roster, key) is None <==> (forall|i: int|
            0 <= i < roster.len() ==> (#[trigger] roster[i]).trap_account_name@ != key),
    decreases roster.len(),
{
    if roster.len() > 0 {
        lemma_roster_lookup_none(roster.drop_first(), key);
        if roster_lookup(roster.drop_first(), key) is None
            && roster[0].trap_account_name@ != key {
            assert forall|i: int|
                0 <= i < roster.len() implies (#[trigger] roster[i]).trap_account_name@
                != key by {
                if i > 0 {
                    assert(roster.drop_first()[i - 1] == roster[i]);
                }
            }
        }
        if forall|i: int|
            0 <= i < roster.len() ==> (#[trigger] roster[i]).trap_account_name@ != key {
            assert forall|i: int|
                0 <= i < roster.drop_first().len() implies (#[trigger] roster.drop_first()[
                i]).trap_account_name@ != key by {
                assert(roster.drop_first()[i] == roster[i + 1]);
            }
        }
    }
}

/// The record the merge produces for one linkage entry.
pub open spec fn merged_record(
    member: TrapMemberWithAcAccount,
    roster: Seq<TrapMember>,
    details: Seq<AccountDetail>,
) -> User {
    let roster_match = roster_lookup(roster, member.trap_account_name@);
    let detail_match = match member.ac_account_name {
        Some(name) => detail_lookup(details, name@),
        None => None,
    };
    User {
        trap_account_name: member.trap_account_name,
        atcoder_account_name: member.ac_account_name,
        atcoder_rating: match detail_match {
            Some(info) => Some(latest_rating_spec(info.algo_rating@)),
            None => None,
        },
        heuristic_rating: match detail_match {
            Some(info) => Some(latest_rating_spec(info.heur_rating@)),
            None => None,
        },
        is_algo_team: match roster_match {
            Some(m) => Some(m.is_algo_team),
            None => None,
        },
        is_active: match roster_match {
            Some(m) => Some(m.is_active),
            None => None,
        },
        grade: match roster_match {
            Some(m) => m.grade,
            None => None,
        },
    }
}

/// The whole merged record set: one record per linkage entry, in linkage
/// order.
pub open spec fn merged_records(
    roster: Seq<TrapMember>,
    linkage: Seq<TrapMemberWithAcAccount>,
    details: Seq<AccountDetail>,
) -> Seq<User> {
    linkage.map_values(|member: TrapMemberWithAcAccount| merged_record(member, roster, details))
}

/// Finds the roster entry for `key`, if any.
fn find_member<'a>(roster: &'a Vec<TrapMember>, key: &String) -> (r: Option<&'a TrapMember>)
    ensures
        match r {
            Some(m) => roster_lookup(roster@, key@) == Some(*m),
            None => roster_lookup(roster@, key@) is None,
        },
{
    let mut idx: usize = 0;
    proof {
        assert(roster@.skip(0) =~= roster@);
    }
    while idx < roster.len()
        invariant
            idx <= roster@.len(),
            roster_lookup(roster@, key@) == roster_lookup(roster@.skip(idx as int), key@),
        decreases roster@.len() - idx,
    {
        if roster[idx].trap_account_name.eq(key) {
            proof {
                assert(roster@.skip(idx as int)[0] == roster@[idx as int]);
            }
            return Some(&roster[idx]);
        }
        proof {
            assert(roster@.skip(idx as int)[0] == roster@[idx as int]);
            assert(roster@.skip(idx as int).drop_first() =~= roster@.skip(idx as int + 1));
        }
        idx = idx + 1;
    }
    None
}

/// Finds the fetched history for account `name`, if any.
fn find_detail<'a>(details: &'a Vec<AccountDetail>, name: &String) -> (r: Option<
    &'a AcDetailedInfo,
>)
    ensures
        match r {
            Some(info) => detail_lookup(details@, name@) == Some(*info),
            None => detail_lookup(details@, name@) is None,
        },
{
    let mut idx: usize = 0;
    proof {
        assert(details@.skip(0) =~= details@);
    }
    while idx < details.len()
        invariant
            idx <= details@.len(),
            detail_lookup(details@, name@) == detail_lookup(details@.skip(idx as int), name@),
        decreases details@.len() - idx,
    {
        if details[idx].ac_account_name.eq(name) {
            proof {
                assert(details@.skip(idx as int)[0] == details@[idx as int]);
            }
            return Some(&details[idx].info);
        }
        proof {
            assert(details@.skip(idx as int)[0] == details@[idx as int]);
            assert(details@.skip(idx as int).drop_first() =~= details@.skip(idx as int + 1));
        }
        idx = idx + 1;
    }
    None
}

/// Builds the merged record for one linkage entry.
fn merge_one(
    member: &TrapMemberWithAcAccount,
    roster: &Vec<TrapMember>,
    details: &Vec<AccountDetail>,
) -> (r: User)
    ensures
        r == merged_record(*member, roster@, details@),
{
    let roster_match = find_member(roster, &member.trap_account_name);
    let detail_match = match &member.ac_account_name {
        Some(name) => find_detail(details, name),
        None => None,
    };
    User {
        trap_account_name: member.trap_account_name.clone(),
        atcoder_account_name: clone_opt_string(&member.ac_account_name),
        atcoder_rating: match detail_match {
            Some(info) => Some(latest_rating(&info.algo_rating)),
            None => None,
        },
        heuristic_rating: match detail_match {
            Some(info) => Some(latest_rating(&info.heur_rating)),
            None => None,
        },
        is_algo_team: match roster_match {
            Some(m) => Some(m.is_algo_team),
            None => None,
        },
        is_active: match roster_match {
            Some(m) => Some(m.is_active),
            None => None,
        },
        grade: match roster_match {
            Some(m) => clone_opt_string(&m.grade),
            None => None,
        },
    }
}

/// Merges the three source results into the record set that storage
/// receives, one record per linkage entry in linkage order.
pub fn merge_users(
    roster: &Vec<TrapMember>,
    linkage: &Vec<TrapMemberWithAcAccount>,
    details: &Vec<AccountDetail>,
) -> (r: Vec<User>)
    ensures
        r@ == merged_records(roster@, linkage@, details@),
{
    let mut out: Vec<User> = Vec::new();
    let mut idx: usize = 0;
    while idx < linkage.len()
        invariant
            idx <= linkage@.len(),
            out@.len() == idx,
            forall|i: int|
                0 <= i < idx ==> out@[i] == merged_record(#[trigger] linkage@[i], roster@,
                details@),
        decreases linkage@.len() - idx,
    {
        let record = merge_one(&linkage[idx], roster, details);
        out.push(record);
        idx = idx + 1;
    }
    proof {
        assert(out@ =~= merged_records(roster@, linkage@, details@));
    }
    out
}

/// Whether the linkage result carries `name` as some member's linked
/// account name.
pub open spec fn linkage_has_name(
    linkage: Seq<TrapMemberWithAcAccount>,
    name: Seq<char>,
) -> bool {
    exists|j: int|
        0 <= j < linkage.len() && (#[trigger] linkage[j]).ac_account_name is Some && linkage[
        j].ac_account_name.unwrap()@ == name
}

/// Whether some entry of `names` has the value `name`.
pub open spec fn contains_name_spec(names: Seq<String>, name: Seq<char>) -> bool {
    exists|i: int| 0 <= i < names.len() && (#[trigger] names[i])@ == name
}

/// The distinct linked account names, in order of first occurrence: each
/// linkage entry contributes its linked name when no earlier entry already
/// did.
pub open spec fn account_names_spec(linkage: Seq<TrapMemberWithAcAccount>) -> Seq<String>
    decreases linkage.len(),
{
    if linkage.len() == 0 {
        Seq::empty()
    } else {
        let prefix = account_names_spec(linkage.drop_last());
        match linkage.last().ac_account_name {
            Some(name) => if contains_name_spec(prefix, name@) {
                prefix
            } else {
                prefix.push(name)
            },
            None => prefix,
        }
    }
}

/// Whether `names` already holds `name`.
fn contains_name(names: &Vec<String>, name: &String) -> (r: bool)
    ensures
        r == contains_name_spec(names@, name@),
{
    let mut idx: usize = 0;
    while idx < names.len()
        invariant
            idx <= names@.len(),
            forall|i: int| 0 <= i < idx ==> (#[trigger] names@[i])@ != name@,
        decreases names@.len() - idx,
    {
        if names[idx].eq(name) {
            return true;
        }
        idx = idx + 1;
    }
    false
}

/// Collects the distinct linked external account names, in order of first
/// occurrence. Members without a linked account contribute nothing.
pub fn collect_account_names(linkage: &Vec<TrapMemberWithAcAccount>) -> (r: Vec<String>)
    ensures
        r@ == account_names_spec(linkage@),
{
    let mut out: Vec<String> = Vec::new();
    let mut idx: usize = 0;
    proof {
        assert(linkage@.take(0) =~= Seq::<TrapMemberWithAcAccount>::empty());
    }
    while idx < linkage.len()
        invariant
            idx <= linkage@.len(),
            out@ == account_names_spec(linkage@.take(idx as int)),
        decreases linkage@.len() - idx,
    {
        proof {
            assert(linkage@.take(idx as int + 1).drop_last() =~= linkage@.take(idx as int));
            assert(linkage@.take(idx as int + 1).last() == linkage@[idx as int]);
        }
        match &linkage[idx].ac_account_name {
            Some(name) => {
                if !contains_name(&out, name) {
                    out.push(name.clone());
                }
            },
            None => {},
        }
        idx = idx + 1;
    }
    proof {
        assert(linkage@.take(linkage@.len() as int) =~= linkage@);
    }
    out
}

/// Law: the collected account names are exactly the linked names — each
/// one occurs in the result at most once, each stems from some linkage
/// entry, and every linked name is present.
pub proof fn lemma_account_names_distinct_and_complete(linkage: Seq<TrapMemberWithAcAccount>)
    ensures
        forall|i: int, j: int|
            0 <= i < j < account_names_spec(linkage).len() ==> (#[trigger] account_names_spec(
            linkage)[i])@ != (#[trigger] account_names_spec(linkage)[j])@,
        forall|i: int|
            0 <= i < account_names_spec(linkage).len() ==> linkage_has_name(linkage, (
            #[trigger] account_names_spec(linkage)[i])@),
        forall|j: int|
            0 <= j < linkage.len() && (#[trigger] linkage[j]).ac_account_name is Some
                ==> contains_name_spec(account_names_spec(linkage), linkage[
            j].ac_account_name.unwrap()@),
    decreases linkage.len(),
{
    if linkage.len() > 0 {
        lemma_account_names_distinct_and_complete(linkage.drop_last());
        let prefix = account_names_spec(linkage.drop_last());
        let names = account_names_spec(linkage);
        assert forall|i: int|
            0 <= i < names.len() implies linkage_has_name(linkage, (#[trigger] names[
        i])@) by {
            if i < prefix.len() {
                assert(linkage_has_name(linkage.drop_last(), prefix[i]@));
                let w = choose|j: int|
                    0 <= j < linkage.drop_last().len() && (#[trigger] linkage.drop_last()[
                    j]).ac_account_name is Some && linkage.drop_last()[
                    j].ac_account_name.unwrap()@ == prefix[i]@;
                assert(linkage[w] == linkage.drop_last()[w]);
            } else {
                assert(names[i] == linkage.last().ac_account_name.unwrap());
                assert(linkage[linkage.len() - 1].ac_account_name is Some);
            }
        }
        assert forall|j: int|
            0 <= j < linkage.len() && (#[trigger] linkage[j]).ac_account_name
            is Some implies contains_name_spec(names, linkage[j].ac_account_name.unwrap()@) by {
            if j < linkage.len() - 1 {
                assert(linkage.drop_last()[j] == linkage[j]);
                let w = choose|i: int|
                    0 <= i < prefix.len() && (#[trigger] prefix[i])@ == linkage[
                    j].ac_account_name.unwrap()@;
                assert(names[w] == prefix[w]);
            } else {
                let name = linkage.last().ac_account_name.unwrap();
                if contains_name_spec(prefix, name@) {
                    assert(names == prefix);
                } else {
                    assert(names[names.len() - 1] == name);
                }
            }
        }
    }
}

/// Law: every merged record carries the key of the linkage entry it stems
/// from, and no record carries a key that is absent from the linkage
/// result set.
pub proof fn lemma_merged_keys_match_linkage(
    roster: Seq<TrapMember>,
    linkage: Seq<TrapMemberWithAcAccount>,
    details: Seq<AccountDetail>,
)
    ensures
        merged_records(roster, linkage, details).len() == linkage.len(),
        forall|i: int|
            0 <= i < linkage.len() ==> (#[trigger] merged_records(roster, linkage, details)[
            i]).trap_account_name == linkage[i].trap_account_name,
        forall|i: int|
            0 <= i < merged_records(roster, linkage, details).len() ==> exists|j: int|
                0 <= j < linkage.len() && (#[trigger] merged_records(roster, linkage, details)[
                i]).trap_account_name@ == linkage[j].trap_account_name@,
{
    assert forall|i: int|
        0 <= i < merged_records(roster, linkage, details).len() implies exists|j: int|
        0 <= j < linkage.len() && (#[trigger] merged_records(roster, linkage, details)[
        i]).trap_account_name@ == linkage[j].trap_account_name@ by {
        assert(0 <= i < linkage.len() && merged_records(roster, linkage, details)[
        i].trap_account_name@ == linkage[i].trap_account_name@);
    }
}

/// Law: a linked account whose fetched history is empty in a category
/// yields the rating `0` in that category — present, and not negative.
pub proof fn lemma_empty_history_defaults_to_zero(
    member: TrapMemberWithAcAccount,
    roster: Seq<TrapMember>,
    details: Seq<AccountDetail>,
)
    requires
        member.ac_account_name is Some,
        detail_lookup(details, member.ac_account_name.unwrap()@) is Some,
    ensures
        merged_record(member, roster, details).atcoder_rating is Some,
        merged_record(member, roster, details).heuristic_rating is Some,
        detail_lookup(details, member.ac_account_name.unwrap()@).unwrap().algo_rating@.len() == 0
            ==> merged_record(member, roster, details).atcoder_rating == Some(0i32),
        detail_lookup(details, member.ac_account_name.unwrap()@).unwrap().heur_rating@.len() == 0
            ==> merged_record(member, roster, details).heuristic_rating == Some(0i32),
{
}

/// Law: a member without a linked account gets both rating fields absent,
/// not `0`.
pub proof fn lemma_unlinked_has_no_ratings(
    member: TrapMemberWithAcAccount,
    roster: Seq<TrapMember>,
    details: Seq<AccountDetail>,
)
    requires
        member.ac_account_name is None,
    ensures
        merged_record(member, roster, details).atcoder_rating is None,
        merged_record(member, roster, details).heuristic_rating is None,
{
}

/// Law: when no roster entry carries the member's key, every
/// roster-derived field of the merged record is absent.
pub proof fn lemma_no_roster_match_leaves_fields_absent(
    member: TrapMemberWithAcAccount,
    roster: Seq<TrapMember>,
    details: Seq<AccountDetail>,
)
    requires
        forall|i: int|
            0 <= i < roster.len() ==> (#[trigger] roster[i]).trap_account_name@
                != member.trap_account_name@,
    ensures
        merged_record(member, roster, details).is_active is None,
        merged_record(member, roster, details).is_algo_team is None,
        merged_record(member, roster, details).grade is None,
{
    lemma_roster_lookup_none(roster, member.trap_account_name@);
}

/// Law: the merge is deterministic — equal source results yield equal
/// merged record sets, however often the pipeline is re-run.
pub proof fn lemma_merge_deterministic(
    roster1: Seq<TrapMember>,
    linkage1: Seq<TrapMemberWithAcAccount>,
    details1: Seq<AccountDetail>,
    roster2: Seq<TrapMember>,
    linkage2: Seq<TrapMemberWithAcAccount>,
    details2: Seq<AccountDetail>,
)
    requires
        roster1 == roster2,
        linkage1 == linkage2,
        details1 == details2,
    ensures
        merged_records(roster1, linkage1, details1) == merged_records(roster2, linkage2,
        details2),
{
}

} // verus!

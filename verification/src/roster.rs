//! Roster assembly: from the raw group-service results — the user list,
//! the competitive-team membership and the grade-group memberships — to the
//! `TrapMember` list the merge consumes.
//!
//! Bots are excluded; a member's grade is the name of the last grade group
//! in list order that contains the member.

use vstd::prelude::*;
use crate::entity::TrapMember;
use crate::pattern::{grade_group_name_spec, is_grade_group_name};

verus! {

/// One user as the group service lists it: identity, display name, whether
/// the account is a bot and whether it is in the active state.
#[derive(Debug, Clone, PartialEq, Eq)]
pub struct RawUser {
    pub id: u128,
    pub name: String,
    pub bot: bool,
    pub active: bool,
}

/// One user group: identity and name.
#[derive(Debug, Clone, PartialEq, Eq)]
pub struct Group {
    pub id: u128,
    pub name: String,
}

/// One grade group together with the members resolved for it.
#[derive(Debug, Clone, PartialEq, Eq)]
pub struct GroupMembers {
    pub name: String,
    pub member_ids: Vec<u128>,
}

/// The identity of the first group named `name`, if any.
pub open spec fn group_id_lookup(groups: Seq<Group>, name: Seq<char>) -> Option<u128>
    decreases groups.len(),
{
    if groups.len() == 0 {
        None
    } else if groups[0].name@ == name {
        Some(groups[0].id)
    } else {
        group_id_lookup(groups.drop_first(), name)
    }
}

/// Finds the group named `name`.
pub fn find_group_id(groups: &Vec<Group>, name: &String) -> (r: Option<u128>)
    ensures
        r == group_id_lookup(groups@, name@),
{
    let mut idx: usize = 0;
    proof {
        assert(groups@.skip(0) =~= groups@);
    }
    while idx < groups.len()
        invariant
            idx <= groups@.len(),
            group_id_lookup(groups@, name@) == group_id_lookup(groups@.skip(idx as int), name@),
        decreases groups@.len() - idx,
    {
        proof {
            assert(groups@.skip(idx as int)[0] == groups@[idx as int]);
            assert(groups@.skip(idx as int).drop_first() =~= groups@.skip(idx as int + 1));
        }
        if groups[idx].name.eq(name) {
            return Some(groups[idx].id);
        }
        idx = idx + 1;
    }
    None
}

/// The grade groups among `groups`, in their given order.
pub open spec fn grade_groups_spec(groups: Seq<Group>) -> Seq<Group>
    decreases groups.len(),
{
    if groups.len() == 0 {
        Seq::empty()
    } else {
        grade_groups_spec(groups.drop_last()) + if grade_group_name_spec(groups.last().name@) {
            seq![groups.last()]
        } else {
            Seq::empty()
        }
    }
}

/// Keeps exactly the groups whose name names a grade.
pub fn find_all_grade_groups(groups: Vec<Group>) -> (r: Vec<Group>)
    ensures
        r@ == grade_groups_spec(groups@),
{
    let mut out: Vec<Group> = Vec::new();
    let mut idx: usize = 0;
    proof {
        assert(groups@.take(0) =~= Seq::<Group>::empty());
    }
    while idx < groups.len()
        invariant
            idx <= groups@.len(),
            out@ == grade_groups_spec(groups@.take(idx as int)),
        decreases groups@.len() - idx,
    {
        proof {
            assert(groups@.take(idx as int + 1).drop_last() =~= groups@.take(idx as int));
            assert(groups@.take(idx as int + 1).last() == groups@[idx as int]);
        }
        if is_grade_group_name(groups[idx].name.as_str()) {
            out.push(Group { id: groups[idx].id, name: groups[idx].name.clone() });
            proof {
                assert(out@ =~= grade_groups_spec(groups@.take(idx as int + 1)));
            }
        } else {
            proof {
                assert(out@ =~= grade_groups_spec(groups@.take(idx as int + 1)));
            }
        }
        idx = idx + 1;
    }
    proof {
        assert(groups@.take(groups@.len() as int) =~= groups@);
    }
    out
}

/// The grade of a member: the name of the last grade group in list order
/// that contains the member's identity, absent when none does.
pub open spec fn grade_of(grade_groups: Seq<GroupMembers>, id: u128) -> Option<String>
    decreases grade_groups.len(),
{
    if grade_groups.len() == 0 {
        None
    } else if grade_groups.last().member_ids@.contains(id) {
        Some(grade_groups.last().name)
    } else {
        grade_of(grade_groups.drop_last(), id)
    }
}

/// Whether `ids` holds `id`.
pub fn contains_id(ids: &Vec<u128>, id: u128) -> (r: bool)
    ensures
        r == ids@.contains(id),
{
    let mut idx: usize = 0;
    while idx < ids.len()
        invariant
            idx <= ids@.len(),
            forall|i: int| 0 <= i < idx ==> ids@[i] != id,
        decreases ids@.len() - idx,
    {
        if ids[idx] == id {
            proof {
                assert(ids@[idx as int] == id);
            }
            return true;
        }
        idx = idx + 1;
    }
    false
}

/// Resolves the grade of one member.
pub fn grade_lookup(grade_groups: &Vec<GroupMembers>, id: u128) -> (r: Option<String>)
    ensures
        r == grade_of(grade_groups@, id),
{
    let mut idx: usize = grade_groups.len();
    proof {
        assert(grade_groups@.take(grade_groups@.len() as int) =~= grade_groups@);
    }
    while idx > 0
        invariant
            idx <= grade_groups@.len(),
            grade_of(grade_groups@, id) == grade_of(grade_groups@.take(idx as int), id),
        decreases idx,
    {
        idx = idx - 1;
        proof {
            assert(grade_groups@.take(idx as int + 1).drop_last() =~= grade_groups@.take(
            idx as int));
            assert(grade_groups@.take(idx as int + 1).last() == grade_groups@[idx as int]);
        }
        if contains_id(&grade_groups[idx].member_ids, id) {
            return Some(grade_groups[idx].name.clone());
        }
    }
    proof {
        assert(grade_groups@.take(0) =~= Seq::<GroupMembers>::empty());
    }
    None
}

/// The roster entry one raw user denotes, given the team membership and
/// the grade-group memberships.
pub open spec fn member_of(
    u: RawUser,
    team_ids: Seq<u128>,
    grade_groups: Seq<GroupMembers>,
) -> TrapMember {
    TrapMember {
        trap_account_name: u.name,
        is_active: u.active,
        is_algo_team: team_ids.contains(u.id),
        grade: grade_of(grade_groups, u.id),
    }
}

/// The roster the raw results denote: every non-bot user, in list order,
/// with team membership and grade resolved.
pub open spec fn roster_spec(
    users: Seq<RawUser>,
    team_ids: Seq<u128>,
    grade_groups: Seq<GroupMembers>,
) -> Seq<TrapMember>
    decreases users.len(),
{
    if users.len() == 0 {
        Seq::empty()
    } else {
        roster_spec(users.drop_last(), team_ids, grade_groups) + if users.last().bot {
            Seq::empty()
        } else {
            seq![member_of(users.last(), team_ids, grade_groups)]
        }
    }
}

/// Builds the roster from the raw group-service results.
pub fn build_members(
    users: &Vec<RawUser>,
    team_ids: &Vec<u128>,
    grade_groups: &Vec<GroupMembers>,
) -> (r: Vec<TrapMember>)
    ensures
        r@ == roster_spec(users@, team_ids@, grade_groups@),
{
    let mut out: Vec<TrapMember> = Vec::new();
    let mut idx: usize = 0;
    proof {
        assert(users@.take(0) =~= Seq::<RawUser>::empty());
    }
    while idx < users.len()
        invariant
            idx <= users@.len(),
            out@ == roster_spec(users@.take(idx as int), team_ids@, grade_groups@),
        decreases users@.len() - idx,
    {
        proof {
            assert(users@.take(idx as int + 1).drop_last() =~= users@.take(idx as int));
            assert(users@.take(idx as int + 1).last() == users@[idx as int]);
        }
        if !users[idx].bot {
            let member = TrapMember {
                trap_account_name: users[idx].name.clone(),
                is_active: users[idx].active,
                is_algo_team: contains_id(team_ids, users[idx].id),
                grade: grade_lookup(grade_groups, users[idx].id),
            };
            out.push(member);
            proof {
                assert(out@ =~= roster_spec(users@.take(idx as int + 1), team_ids@,
                grade_groups@));
            }
        } else {
            proof {
                assert(out@ =~= roster_spec(users@.take(idx as int + 1), team_ids@,
                grade_groups@));
            }
        }
        idx = idx + 1;
    }
    proof {
        assert(users@.take(users@.len() as int) =~= users@);
    }
    out
}

} // verus!

//! The stored table of merged records, keyed by `trap_account_name`.
//!
//! Storage applies last-write-wins field replacement: a bulk upsert inserts
//! a record whose key is absent and overwrites every non-key field of one
//! whose key is present. No row is ever deleted. The table is modeled as a
//! map from key to record; the bulk upsert is the right-preferring union
//! with the map the record list denotes.

use vstd::prelude::*;
use vstd::map_lib::lemma_union_insert_right;
use crate::dto::{User, clone_user};
use crate::pipeline::{PersistRepository, StoreError};

verus! {

/// The map a row sequence denotes: later rows win on a repeated key.
pub open spec fn user_map(rows: Seq<User>) -> Map<Seq<char>, User>
    decreases rows.len(),
{
    if rows.len() == 0 {
        Map::empty()
    } else {
        user_map(rows.drop_last()).insert(rows.last().trap_account_name@, rows.last())
    }
}

/// No two rows share a key.
pub open spec fn keys_unique(rows: Seq<User>) -> bool {
    forall|i: int, j: int|
        0 <= i < j < rows.len() ==> (#[trigger] rows[i]).trap_account_name@ != (
        #[trigger] rows[j]).trap_account_name@
}

/// A key is in the denoted map exactly when some row carries it.
proof fn lemma_user_map_contains(rows: Seq<User>, key: Seq<char>)
    ensures
        user_map(rows).contains_key(key) <==> exists|i: int|
            0 <= i < rows.len() && (#[trigger] rows[i]).trap_account_name@ == key,
    decreases rows.len(),
{
    if rows.len() > 0 {
        lemma_user_map_contains(rows.drop_last(), key);
        if user_map(rows).contains_key(key) {
            if rows.last().trap_account_name@ == key {
                assert(rows[rows.len() - 1].trap_account_name@ == key);
            } else {
                let i = choose|i: int|
                    0 <= i < rows.drop_last().len() && (#[trigger] rows.drop_last()[
                    i]).trap_account_name@ == key;
                assert(rows[i].trap_account_name@ == key);
            }
        }
        if exists|i: int| 0 <= i < rows.len() && (#[trigger] rows[i]).trap_account_name@ == key {
            let i = choose|i: int|
                0 <= i < rows.len() && (#[trigger] rows[i]).trap_account_name@ == key;
            if i < rows.len() - 1 {
                assert(rows.drop_last()[i].trap_account_name@ == key);
            }
        }
    }
}

/// With unique keys, the denoted map sends each row's key to that row.
proof fn lemma_user_map_index(rows: Seq<User>, i: int)
    requires
        keys_unique(rows),
        0 <= i < rows.len(),
    ensures
        user_map(rows).contains_key(rows[i].trap_account_name@),
        user_map(rows)[rows[i].trap_account_name@] == rows[i],
    decreases rows.len(),
{
    if i == rows.len() - 1 {
    } else {
        assert(keys_unique(rows.drop_last())) by {
            assert forall|a: int, b: int|
                0 <= a < b < rows.drop_last().len() implies (#[trigger] rows.drop_last()[
            a]).trap_account_name@ != (#[trigger] rows.drop_last()[b]).trap_account_name@ by {
                assert(rows.drop_last()[a] == rows[a] && rows.drop_last()[b] == rows[b]);
            }
        }
        assert(rows.drop_last()[i] == rows[i]);
        lemma_user_map_index(rows.drop_last(), i);
        assert(rows[i].trap_account_name@ != rows.last().trap_account_name@);
    }
}

/// Replacing row `i` by a record with the same key denotes an insert.
proof fn lemma_user_map_update(rows: Seq<User>, i: int, rec: User)
    requires
        keys_unique(rows),
        0 <= i < rows.len(),
        rows[i].trap_account_name@ == rec.trap_account_name@,
    ensures
        user_map(rows.update(i, rec)) == user_map(rows).insert(rec.trap_account_name@, rec),
    decreases rows.len(),
{
    let k = rec.trap_account_name@;
    let updated = rows.update(i, rec);
    if i == rows.len() - 1 {
        assert(updated.drop_last() =~= rows.drop_last());
        assert(updated.last() == rec);
        assert(user_map(updated) == user_map(rows.drop_last()).insert(k, rec));
        assert(user_map(rows.drop_last()).insert(k, rows.last()).insert(k, rec) =~= user_map(
        rows.drop_last()).insert(k, rec));
    } else {
        assert(keys_unique(rows.drop_last())) by {
            assert forall|a: int, b: int|
                0 <= a < b < rows.drop_last().len() implies (#[trigger] rows.drop_last()[
            a]).trap_account_name@ != (#[trigger] rows.drop_last()[b]).trap_account_name@ by {
                assert(rows.drop_last()[a] == rows[a] && rows.drop_last()[b] == rows[b]);
            }
        }
        assert(rows.drop_last()[i] == rows[i]);
        lemma_user_map_update(rows.drop_last(), i, rec);
        assert(updated.drop_last() =~= rows.drop_last().update(i, rec));
        assert(updated.last() == rows.last());
        let last_key = rows.last().trap_account_name@;
        assert(rows[i].trap_account_name@ != rows[rows.len() - 1].trap_account_name@);
        assert(user_map(rows.drop_last()).insert(k, rec).insert(last_key, rows.last())
            =~= user_map(rows.drop_last()).insert(last_key, rows.last()).insert(k, rec));
    }
}

/// Applies one record to the rows: overwrite the row with the same key, or
/// append when the key is new.
fn upsert_row(rows: &mut Vec<User>, rec: User)
    requires
        keys_unique(old(rows)@),
    ensures
        keys_unique(final(rows)@),
        user_map(final(rows)@) == user_map(old(rows)@).insert(rec.trap_account_name@, rec),
{
    let ghost k = rec.trap_account_name@;
    let mut idx: usize = 0;
    while idx < rows.len()
        invariant
            keys_unique(rows@),
            rows@ == old(rows)@,
            idx <= rows@.len(),
            rec.trap_account_name@ == k,
            forall|i: int| 0 <= i < idx ==> (#[trigger] rows@[i]).trap_account_name@ != k,
        decreases rows@.len() - idx,
    {
        if rows[idx].trap_account_name.eq(&rec.trap_account_name) {
            proof {
                lemma_user_map_update(rows@, idx as int, rec);
            }
            rows.set(idx, rec);
            proof {
                assert forall|a: int, b: int|
                    0 <= a < b < rows@.len() implies (#[trigger] rows@[a]).trap_account_name@
                    != (#[trigger] rows@[b]).trap_account_name@ by {
                    assert(old(rows)@[a].trap_account_name@ != old(rows)@[
                    b].trap_account_name@);
                }
            }
            return ;
        }
        proof {
            assert(rows@[idx as int].trap_account_name@ != k);
        }
        idx = idx + 1;
    }
    rows.push(rec);
    proof {
        assert(rows@.drop_last() =~= old(rows)@);
        assert(rows@.last() == rec);
        assert forall|a: int, b: int|
            0 <= a < b < rows@.len() implies (#[trigger] rows@[a]).trap_account_name@ != (
        #[trigger] rows@[b]).trap_account_name@ by {
            if b == rows@.len() - 1 {
                assert(rows@[a] == old(rows)@[a]);
            } else {
                assert(old(rows)@[a].trap_account_name@ != old(rows)@[b].trap_account_name@);
            }
        }
    }
}

/// The durable table of merged records.
pub struct UserTable {
    rows: Vec<User>,
}

impl View for UserTable {
    type V = Map<Seq<char>, User>;

    closed spec fn view(&self) -> Map<Seq<char>, User> {
        user_map(self.rows@)
    }
}

impl UserTable {
    #[verifier::type_invariant]
    spec fn wf(self) -> bool {
        keys_unique(self.rows@)
    }

    /// An empty table.
    pub fn new() -> (t: Self)
        ensures
            t@ == Map::<Seq<char>, User>::empty(),
    {
        UserTable { rows: Vec::new() }
    }

    /// Bulk upsert: insert each record whose key is absent, overwrite every
    /// non-key field of each record whose key is present. No row is
    /// deleted; within one call later records win on a repeated key.
    pub fn upsert(&mut self, records: &Vec<User>)
        ensures
            final(self)@ == old(self)@.union_prefer_right(user_map(records@)),
    {
        proof {
            use_type_invariant(&*self);
        }
        let mut rows: Vec<User> = Vec::new();
        std::mem::swap(&mut rows, &mut self.rows);
        let ghost table0 = user_map(rows@);
        let mut idx: usize = 0;
        proof {
            assert(records@.take(0) =~= Seq::<User>::empty());
            assert(table0.union_prefer_right(user_map(records@.take(0))) =~= table0);
        }
        while idx < records.len()
            invariant
                idx <= records@.len(),
                keys_unique(rows@),
                user_map(rows@) == table0.union_prefer_right(user_map(records@.take(idx as int))),
            decreases records@.len() - idx,
        {
            let rec = clone_user(&records[idx]);
            let ghost before = user_map(rows@);
            upsert_row(&mut rows, rec);
            proof {
                let ghost k = records@[idx as int].trap_account_name@;
                assert(records@.take(idx as int + 1).drop_last() =~= records@.take(idx as int));
                assert(records@.take(idx as int + 1).last() == records@[idx as int]);
                assert(user_map(records@.take(idx as int + 1)) == user_map(records@.take(
                idx as int)).insert(k, records@[idx as int]));
                lemma_union_insert_right(table0, user_map(records@.take(idx as int)), k,
                records@[idx as int]);
            }
            idx = idx + 1;
        }
        proof {
            assert(records@.take(records@.len() as int) =~= records@);
        }
        self.rows = rows;
    }

    /// Key-equality lookup of one stored record.
    pub fn get(&self, trap_account_name: &String) -> (r: Option<&User>)
        ensures
            match r {
                Some(u) => self@.contains_key(trap_account_name@) && *u == self@[
                trap_account_name@],
                None => !self@.contains_key(trap_account_name@),
            },
    {
        proof {
            use_type_invariant(&*self);
        }
        let mut idx: usize = 0;
        while idx < self.rows.len()
            invariant
                self.wf(),
                idx <= self.rows@.len(),
                forall|i: int|
                    0 <= i < idx ==> (#[trigger] self.rows@[i]).trap_account_name@
                        != trap_account_name@,
            decreases self.rows@.len() - idx,
        {
            if self.rows[idx].trap_account_name.eq(trap_account_name) {
                proof {
                    lemma_user_map_index(self.rows@, idx as int);
                }
                return Some(&self.rows[idx]);
            }
            idx = idx + 1;
        }
        proof {
            lemma_user_map_contains(self.rows@, trap_account_name@);
        }
        None
    }

    /// Every stored record, as a list that denotes the whole table, one
    /// row per key.
    pub fn users(&self) -> (r: Vec<User>)
        ensures
            user_map(r@) == self@,
            keys_unique(r@),
    {
        proof {
            use_type_invariant(&*self);
        }
        let mut out: Vec<User> = Vec::new();
        let mut idx: usize = 0;
        while idx < self.rows.len()
            invariant
                idx <= self.rows@.len(),
                out@.len() == idx,
                forall|i: int| 0 <= i < idx ==> out@[i] == (#[trigger] self.rows@[i]),
            decreases self.rows@.len() - idx,
        {
            out.push(clone_user(&self.rows[idx]));
            idx = idx + 1;
        }
        proof {
            assert(out@ =~= self.rows@);
        }
        out
    }
}

/// The in-memory table is itself a storage backend: every write succeeds
/// and the exposed table is the denoted map. This is the verified
/// reference implementation of the storage contract.
impl PersistRepository for UserTable {
    open spec fn table(&self) -> Map<Seq<char>, User> {
        self@
    }

    fn get_users(&self) -> (r: Result<Vec<User>, StoreError>) {
        Ok(self.users())
    }

    fn get_user(&self, trap_account_name: &String) -> (r: Result<Option<User>, StoreError>) {
        match self.get(trap_account_name) {
            Some(u) => Ok(Some(clone_user(u))),
            None => Ok(None),
        }
    }

    fn set_users(&mut self, users: Vec<User>) -> (r: Result<(), StoreError>) {
        self.upsert(&users);
        Ok(())
    }
}

/// Law: the bulk upsert is idempotent — applying the same record list
/// twice leaves the same stored table as applying it once.
pub proof fn lemma_upsert_idempotent(table: Map<Seq<char>, User>, records: Seq<User>)
    ensures
        table.union_prefer_right(user_map(records)).union_prefer_right(user_map(records))
            == table.union_prefer_right(user_map(records)),
{
    assert(table.union_prefer_right(user_map(records)).union_prefer_right(user_map(records))
        =~= table.union_prefer_right(user_map(records)));
}

/// Law: an upsert never deletes a row — every key stored before the call
/// is still stored after it.
pub proof fn lemma_upsert_preserves_keys(table: Map<Seq<char>, User>, records: Seq<User>)
    ensures
        forall|k: Seq<char>|
            table.contains_key(k) ==> #[trigger] table.union_prefer_right(user_map(
            records)).contains_key(k),
{
}

} // verus!

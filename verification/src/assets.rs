//! Keyed store of whitelisted assets: asset id -> `AssetState`.
//!
//! The vault owns this store outright; there is no ambient state. Its
//! abstract value is a `Map<u64, AssetState>`, and every method's contract
//! is stated against that map.

use vstd::prelude::*;

use crate::asset::AssetState;

verus! {

#[derive(Debug)]
pub struct AssetEntry {
    pub id: u64,
    pub st: AssetState,
}

#[derive(Debug)]
pub struct AssetTable {
    entries: Vec<AssetEntry>,
}

pub closed spec fn table_has(s: Seq<AssetEntry>, k: u64) -> bool {
    exists|i: int| 0 <= i < s.len() && s[i].id == k
}

pub closed spec fn table_idx(s: Seq<AssetEntry>, k: u64) -> int {
    choose|i: int| 0 <= i < s.len() && s[i].id == k
}

pub closed spec fn table_map(s: Seq<AssetEntry>) -> Map<u64, AssetState> {
    Map::new(|k: u64| table_has(s, k), |k: u64| s[table_idx(s, k)].st)
}

pub closed spec fn distinct_ids(s: Seq<AssetEntry>) -> bool {
    forall|i: int, j: int| 0 <= i < j < s.len() ==> s[i].id != s[j].id
}

impl View for AssetTable {
    type V = Map<u64, AssetState>;

    closed spec fn view(&self) -> Map<u64, AssetState> {
        table_map(self.entries@)
    }
}

proof fn lemma_entry_in_map(s: Seq<AssetEntry>, i: int)
    requires
        distinct_ids(s),
        0 <= i < s.len(),
    ensures
        table_map(s).contains_key(s[i].id),
        table_map(s)[s[i].id] == s[i].st,
{
    assert(table_has(s, s[i].id));
    let j = table_idx(s, s[i].id);
    assert(0 <= j < s.len() && s[j].id == s[i].id);
    assert(j == i);
}

impl AssetTable {
    /// Internal structural invariant: every asset id appears at most once.
    pub closed spec fn wf(&self) -> bool {
        distinct_ids(self.entries@)
    }

    pub fn new() -> (r: AssetTable)
        ensures
            r.wf(),
            r@ == Map::<u64, AssetState>::empty(),
    {
        let t = AssetTable { entries: Vec::new() };
        proof {
            assert(t@ =~= Map::<u64, AssetState>::empty());
        }
        t
    }

    pub fn contains(&self, id: u64) -> (r: bool)
        requires
            self.wf(),
        ensures
            r == self@.contains_key(id),
    {
        self.get(id).is_some()
    }

    pub fn get(&self, id: u64) -> (r: Option<AssetState>)
        requires
            self.wf(),
        ensures
            match r {
                Some(st) => self@.contains_key(id) && st == self@[id],
                None => !self@.contains_key(id),
            },
    {
        let n = self.entries.len();
        let mut i: usize = 0;
        while i < n
            invariant
                self.wf(),
                n == self.entries@.len(),
                0 <= i <= n,
                forall|j: int| 0 <= j < i ==> self.entries@[j].id != id,
            decreases n - i,
        {
            if self.entries[i].id == id {
                proof {
                    lemma_entry_in_map(self.entries@, i as int);
                }
                return Some(self.entries[i].st);
            }
            i = i + 1;
        }
        proof {
            assert(!table_has(self.entries@, id));
        }
        None
    }

    pub fn set(&mut self, id: u64, st: AssetState)
        requires
            old(self).wf(),
        ensures
            final(self).wf(),
            final(self)@ == old(self)@.insert(id, st),
    {
        let n = self.entries.len();
        let mut i: usize = 0;
        while i < n
            invariant
                self.wf(),
                self.entries@ == old(self).entries@,
                n == self.entries@.len(),
                0 <= i <= n,
                forall|j: int| 0 <= j < i ==> self.entries@[j].id != id,
            decreases n - i,
        {
            if self.entries[i].id == id {
                let ghost pre = self.entries@;
                self.entries.set(i, AssetEntry { id, st });
                proof {
                    lemma_set_updates_map(pre, i as int, id, st);
                }
                return ;
            }
            i = i + 1;
        }
        let ghost pre = self.entries@;
        self.entries.push(AssetEntry { id, st });
        proof {
            lemma_push_inserts_map(pre, id, st);
        }
    }

    /// Drop an asset from the registry (used when its configuration is
    /// cleared). Pool counters it held disappear with it.
    pub fn remove(&mut self, id: u64)
        requires
            old(self).wf(),
        ensures
            final(self).wf(),
            final(self)@ == old(self)@.remove(id),
    {
        let n = self.entries.len();
        let mut i: usize = 0;
        while i < n
            invariant
                self.wf(),
                self.entries@ == old(self).entries@,
                n == self.entries@.len(),
                0 <= i <= n,
                forall|j: int| 0 <= j < i ==> self.entries@[j].id != id,
            decreases n - i,
        {
            if self.entries[i].id == id {
                let ghost pre = self.entries@;
                let _ = self.entries.remove(i);
                proof {
                    lemma_remove_removes_map(pre, i as int, id);
                }
                return ;
            }
            i = i + 1;
        }
        proof {
            assert(!table_has(self.entries@, id));
            assert(self@ =~= old(self)@.remove(id));
        }
    }

    /// The ids of all whitelisted assets, each exactly once.
    pub fn ids(&self) -> (r: Vec<u64>)
        requires
            self.wf(),
        ensures
            forall|k: u64| r@.contains(k) <==> self@.contains_key(k),
            r@.no_duplicates(),
    {
        let n = self.entries.len();
        let mut r: Vec<u64> = Vec::new();
        let mut i: usize = 0;
        while i < n
            invariant
                self.wf(),
                n == self.entries@.len(),
                0 <= i <= n,
                r@.len() == i,
                forall|j: int| 0 <= j < i ==> r@[j] == self.entries@[j].id,
            decreases n - i,
        {
            r.push(self.entries[i].id);
            i = i + 1;
        }
        proof {
            assert forall|k: u64| r@.contains(k) implies self@.contains_key(k) by {
                let j = choose|j: int| 0 <= j < r@.len() && r@[j] == k;
                lemma_entry_in_map(self.entries@, j);
            }
            assert forall|k: u64| self@.contains_key(k) implies r@.contains(k) by {
                let j = table_idx(self.entries@, k);
                assert(r@[j] == k);
            }
            assert forall|i2: int, j2: int|
                0 <= i2 < r@.len() && 0 <= j2 < r@.len() && i2 != j2 implies r@[i2]
                != r@[j2] by {}
        }
        r
    }
}

proof fn lemma_set_updates_map(s: Seq<AssetEntry>, i: int, id: u64, st: AssetState)
    requires
        distinct_ids(s),
        0 <= i < s.len(),
        s[i].id == id,
    ensures
        distinct_ids(s.update(i, AssetEntry { id, st })),
        table_map(s.update(i, AssetEntry { id, st })) == table_map(s).insert(id, st),
{
    let s2 = s.update(i, AssetEntry { id, st });
    assert forall|a: int, b: int| 0 <= a < b < s2.len() implies s2[a].id != s2[b].id by {
        assert(s[a].id != s[b].id);
    }
    assert forall|k: u64| #[trigger] table_has(s2, k) == table_has(s, k) by {
        if table_has(s2, k) {
            let j = choose|j: int| 0 <= j < s2.len() && s2[j].id == k;
            assert(s[j].id == k);
        }
        if table_has(s, k) {
            let j = choose|j: int| 0 <= j < s.len() && s[j].id == k;
            assert(s2[j].id == k);
        }
    }
    assert forall|k: u64| table_map(s2).contains_key(k) implies table_map(s2)[k] == table_map(
        s,
    ).insert(id, st)[k] by {
        let j = table_idx(s2, k);
        assert(0 <= j < s2.len() && s2[j].id == k);
        if k == id {
            assert(j == i);
        } else {
            assert(j != i);
            assert(s[j].id == k);
            lemma_entry_in_map(s, j);
            assert(table_idx(s, k) == j);
        }
    }
    assert(table_map(s2) =~= table_map(s).insert(id, st));
}

proof fn lemma_push_inserts_map(s: Seq<AssetEntry>, id: u64, st: AssetState)
    requires
        distinct_ids(s),
        !table_has(s, id),
    ensures
        distinct_ids(s.push(AssetEntry { id, st })),
        table_map(s.push(AssetEntry { id, st })) == table_map(s).insert(id, st),
{
    let s2 = s.push(AssetEntry { id, st });
    assert forall|a: int, b: int| 0 <= a < b < s2.len() implies s2[a].id != s2[b].id by {
        if b < s.len() {
            assert(s[a].id != s[b].id);
        } else {
            assert(s2[b].id == id);
            assert(s2[a].id == s[a].id);
            if s[a].id == id {
                assert(table_has(s, id));
            }
        }
    }
    assert forall|k: u64| table_map(s2).contains_key(k) implies table_map(s2)[k] == table_map(
        s,
    ).insert(id, st)[k] by {
        let j = table_idx(s2, k);
        assert(0 <= j < s2.len() && s2[j].id == k);
        if k == id {
            assert forall|a: int, b: int|
                0 <= a < b < s2.len() implies s2[a].id != s2[b].id by {};
            assert(j == s.len()) by {
                if j < s.len() {
                    assert(s[j].id == id);
                    assert(table_has(s, id));
                }
            }
        } else {
            assert(j < s.len());
            assert(s[j].id == k);
            lemma_entry_in_map(s, j);
            assert(table_has(s, k));
            assert(table_idx(s, k) == j);
        }
    }
    assert forall|k: u64| #[trigger] table_map(s).insert(id, st).contains_key(k) implies table_map(
        s2,
    ).contains_key(k) by {
        if k == id {
            assert(s2[s.len() as int].id == id);
            assert(table_has(s2, k));
        } else {
            let j = table_idx(s, k);
            assert(s2[j].id == k);
            assert(table_has(s2, k));
        }
    }
    assert(table_map(s2) =~= table_map(s).insert(id, st));
}

proof fn lemma_remove_removes_map(s: Seq<AssetEntry>, i: int, id: u64)
    requires
        distinct_ids(s),
        0 <= i < s.len(),
        s[i].id == id,
    ensures
        distinct_ids(s.remove(i)),
        table_map(s.remove(i)) == table_map(s).remove(id),
{
    let s2 = s.remove(i);
    assert forall|a: int, b: int| 0 <= a < b < s2.len() implies s2[a].id != s2[b].id by {
        let a0 = if a < i {
            a
        } else {
            a + 1
        };
        let b0 = if b < i {
            b
        } else {
            b + 1
        };
        assert(s2[a] == s[a0]);
        assert(s2[b] == s[b0]);
        assert(s[a0].id != s[b0].id);
    }
    assert forall|k: u64| table_map(s2).contains_key(k) implies k != id && table_map(s).remove(
        id,
    ).contains_key(k) && table_map(s2)[k] == table_map(s).remove(id)[k] by {
        let j = table_idx(s2, k);
        assert(0 <= j < s2.len() && s2[j].id == k);
        let j0 = if j < i {
            j
        } else {
            j + 1
        };
        assert(s2[j] == s[j0]);
        assert(j0 != i);
        assert(k != id) by {
            if k == id {
                assert(s[j0].id == s[i].id);
            }
        }
        lemma_entry_in_map(s, j0);
        assert(table_map(s2)[k] == s2[j].st);
        assert(s2[j].st == s[j0].st);
    }
    assert forall|k: u64| #[trigger] table_map(s).remove(id).contains_key(k) implies table_map(
        s2,
    ).contains_key(k) by {
        let j = table_idx(s, k);
        assert(0 <= j < s.len() && s[j].id == k);
        assert(j != i);
        if j < i {
            assert(s2[j].id == k);
        } else {
            assert(s2[j - 1].id == k);
        }
        assert(table_has(s2, k));
    }
    assert(table_map(s2) =~= table_map(s).remove(id));
}

} // verus!

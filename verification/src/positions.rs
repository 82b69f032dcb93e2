//! Keyed store of positions: composite key -> `Position`.
//!
//! Positions are created on first increase and never physically deleted,
//! only zeroed, so the store offers lookup and upsert but no removal. Its
//! abstract value is a `Map<PositionKey, Position>`.

use vstd::prelude::*;

use crate::position::{Position, PositionKey};

verus! {

#[derive(Debug)]
pub struct PosEntry {
    pub key: PositionKey,
    pub st: Position,
}

#[derive(Debug)]
pub struct PositionTable {
    entries: Vec<PosEntry>,
}

pub closed spec fn ptable_has(s: Seq<PosEntry>, k: PositionKey) -> bool {
    exists|i: int| 0 <= i < s.len() && s[i].key == k
}

pub closed spec fn ptable_idx(s: Seq<PosEntry>, k: PositionKey) -> int {
    choose|i: int| 0 <= i < s.len() && s[i].key == k
}

pub closed spec fn ptable_map(s: Seq<PosEntry>) -> Map<PositionKey, Position> {
    Map::new(|k: PositionKey| ptable_has(s, k), |k: PositionKey| s[ptable_idx(s, k)].st)
}

pub closed spec fn distinct_keys(s: Seq<PosEntry>) -> bool {
    forall|i: int, j: int| 0 <= i < j < s.len() ==> s[i].key != s[j].key
}

impl View for PositionTable {
    type V = Map<PositionKey, Position>;

    closed spec fn view(&self) -> Map<PositionKey, Position> {
        ptable_map(self.entries@)
    }
}

proof fn lemma_entry_in_map(s: Seq<PosEntry>, i: int)
    requires
        distinct_keys(s),
        0 <= i < s.len(),
    ensures
        ptable_map(s).contains_key(s[i].key),
        ptable_map(s)[s[i].key] == s[i].st,
{
    assert(ptable_has(s, s[i].key));
    let j = ptable_idx(s, s[i].key);
    assert(0 <= j < s.len() && s[j].key == s[i].key);
    assert(j == i);
}

impl PositionTable {
    /// Internal structural invariant: every key appears at most once.
    pub closed spec fn wf(&self) -> bool {
        distinct_keys(self.entries@)
    }

    pub fn new() -> (r: PositionTable)
        ensures
            r.wf(),
            r@ == Map::<PositionKey, Position>::empty(),
    {
        let t = PositionTable { entries: Vec::new() };
        proof {
            assert(t@ =~= Map::<PositionKey, Position>::empty());
        }
        t
    }

    pub fn get(&self, key: &PositionKey) -> (r: Option<Position>)
        requires
            self.wf(),
        ensures
            match r {
                Some(st) => self@.contains_key(*key) && st == self@[*key],
                None => !self@.contains_key(*key),
            },
    {
        let n = self.entries.len();
        let mut i: usize = 0;
        while i < n
            invariant
                self.wf(),
                n == self.entries@.len(),
                0 <= i <= n,
                forall|j: int| 0 <= j < i ==> self.entries@[j].key != *key,
            decreases n - i,
        {
            if self.entries[i].key == *key {
                proof {
                    lemma_entry_in_map(self.entries@, i as int);
                }
                return Some(self.entries[i].st);
            }
            i = i + 1;
        }
        proof {
            assert(!ptable_has(self.entries@, *key));
        }
        None
    }

    pub fn set(&mut self, key: PositionKey, st: Position)
        requires
            old(self).wf(),
        ensures
            final(self).wf(),
            final(self)@ == old(self)@.insert(key, st),
    {
        let n = self.entries.len();
        let mut i: usize = 0;
        while i < n
            invariant
                self.wf(),
                self.entries@ == old(self).entries@,
                n == self.entries@.len(),
                0 <= i <= n,
                forall|j: int| 0 <= j < i ==> self.entries@[j].key != key,
            decreases n - i,
        {
            if self.entries[i].key == key {
                let ghost pre = self.entries@;
                self.entries.set(i, PosEntry { key, st });
                proof {
                    lemma_set_updates_map(pre, i as int, key, st);
                }
                return ;
            }
            i = i + 1;
        }
        let ghost pre = self.entries@;
        self.entries.push(PosEntry { key, st });
        proof {
            lemma_push_inserts_map(pre, key, st);
        }
    }
}

proof fn lemma_set_updates_map(s: Seq<PosEntry>, i: int, key: PositionKey, st: Position)
    requires
        distinct_keys(s),
        0 <= i < s.len(),
        s[i].key == key,
    ensures
        distinct_keys(s.update(i, PosEntry { key, st })),
        ptable_map(s.update(i, PosEntry { key, st })) == ptable_map(s).insert(key, st),
{
    let s2 = s.update(i, PosEntry { key, st });
    assert forall|a: int, b: int| 0 <= a < b < s2.len() implies s2[a].key != s2[b].key by {
        assert(s[a].key != s[b].key);
    }
    assert forall|k: PositionKey| #[trigger] ptable_has(s2, k) == ptable_has(s, k) by {
        if ptable_has(s2, k) {
            let j = choose|j: int| 0 <= j < s2.len() && s2[j].key == k;
            assert(s[j].key == k);
        }
        if ptable_has(s, k) {
            let j = choose|j: int| 0 <= j < s.len() && s[j].key == k;
            assert(s2[j].key == k);
        }
    }
    assert forall|k: PositionKey| ptable_map(s2).contains_key(k) implies ptable_map(s2)[k]
        == ptable_map(s).insert(key, st)[k] by {
        let j = ptable_idx(s2, k);
        assert(0 <= j < s2.len() && s2[j].key == k);
        if k == key {
            assert(j == i);
        } else {
            assert(j != i);
            assert(s[j].key == k);
            lemma_entry_in_map(s, j);
            assert(ptable_idx(s, k) == j);
        }
    }
    assert(ptable_map(s2) =~= ptable_map(s).insert(key, st));
}

proof fn lemma_push_inserts_map(s: Seq<PosEntry>, key: PositionKey, st: Position)
    requires
        distinct_keys(s),
        !ptable_has(s, key),
    ensures
        distinct_keys(s.push(PosEntry { key, st })),
        ptable_map(s.push(PosEntry { key, st })) == ptable_map(s).insert(key, st),
{
    let s2 = s.push(PosEntry { key, st });
    assert forall|a: int, b: int| 0 <= a < b < s2.len() implies s2[a].key != s2[b].key by {
        if b < s.len() {
            assert(s[a].key != s[b].key);
        } else {
            assert(s2[b].key == key);
            assert(s2[a].key == s[a].key);
            if s[a].key == key {
                assert(ptable_has(s, key));
            }
        }
    }
    assert forall|k: PositionKey| ptable_map(s2).contains_key(k) implies ptable_map(s2)[k]
        == ptable_map(s).insert(key, st)[k] by {
        let j = ptable_idx(s2, k);
        assert(0 <= j < s2.len() && s2[j].key == k);
        if k == key {
            assert forall|a: int, b: int|
                0 <= a < b < s2.len() implies s2[a].key != s2[b].key by {};
            assert(j == s.len()) by {
                if j < s.len() {
                    assert(s[j].key == key);
                    assert(ptable_has(s, key));
                }
            }
        } else {
            assert(j < s.len());
            assert(s[j].key == k);
            lemma_entry_in_map(s, j);
            assert(ptable_has(s, k));
            assert(ptable_idx(s, k) == j);
        }
    }
    assert forall|k: PositionKey| #[trigger] ptable_map(s).insert(key, st).contains_key(
        k,
    ) implies ptable_map(s2).contains_key(k) by {
        if k == key {
            assert(s2[s.len() as int].key == key);
            assert(ptable_has(s2, k));
        } else {
            let j = ptable_idx(s, k);
            assert(s2[j].key == k);
            assert(ptable_has(s2, k));
        }
    }
    assert(ptable_map(s2) =~= ptable_map(s).insert(key, st));
}

} // verus!

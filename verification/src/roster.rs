//! A role allow-list (managers, liquidators): a set of account ids.

use vstd::prelude::*;

verus! {

#[derive(Debug)]
pub struct Roster {
    members: Vec<u64>,
}

impl View for Roster {
    type V = Set<u64>;

    closed spec fn view(&self) -> Set<u64> {
        Set::new(|x: u64| self.members@.contains(x))
    }
}

impl Roster {
    pub closed spec fn wf(&self) -> bool {
        self.members@.no_duplicates()
    }

    pub fn new() -> (r: Roster)
        ensures
            r.wf(),
            r@ == Set::<u64>::empty(),
    {
        let r = Roster { members: Vec::new() };
        proof {
            assert(r@ =~= Set::<u64>::empty());
        }
        r
    }

    pub fn contains(&self, id: u64) -> (r: bool)
        ensures
            r == self@.contains(id),
    {
        let n = self.members.len();
        let mut i: usize = 0;
        while i < n
            invariant
                n == self.members@.len(),
                0 <= i <= n,
                forall|j: int| 0 <= j < i ==> self.members@[j] != id,
            decreases n - i,
        {
            if self.members[i] == id {
                return true;
            }
            i = i + 1;
        }
        proof {
            assert(!self.members@.contains(id));
        }
        false
    }

    /// Grant or revoke membership.
    pub fn set(&mut self, id: u64, active: bool)
        requires
            old(self).wf(),
        ensures
            final(self).wf(),
            final(self)@ == (if active {
                old(self)@.insert(id)
            } else {
                old(self)@.remove(id)
            }),
    {
        let ghost pre = self.members@;
        if active {
            if !self.contains(id) {
                self.members.push(id);
                proof {
                    assert forall|x: u64| self.members@.contains(x) implies pre.contains(x) || x
                        == id by {
                        let j = choose|j: int|
                            0 <= j < self.members@.len() && self.members@[j] == x;
                        if j < pre.len() {
                            assert(pre[j] == x);
                        }
                    }
                    assert forall|x: u64| pre.contains(x) || x == id implies self.members@.contains(
                        x,
                    ) by {
                        if pre.contains(x) {
                            let j = choose|j: int| 0 <= j < pre.len() && pre[j] == x;
                            assert(self.members@[j] == x);
                        } else {
                            assert(self.members@[pre.len() as int] == id);
                        }
                    }
                    assert(self@ =~= old(self)@.insert(id));
                }
            } else {
                proof {
                    assert(self@ =~= old(self)@.insert(id));
                }
            }
        } else {
            let n = self.members.len();
            let mut i: usize = 0;
            while i < n
                invariant
                    !active,
                    self.members@ == pre,
                    pre == old(self).members@,
                    self.wf(),
                    n == pre.len(),
                    0 <= i <= n,
                    forall|j: int| 0 <= j < i ==> pre[j] != id,
                decreases n - i,
            {
                if self.members[i] == id {
                    let _ = self.members.remove(i);
                    proof {
                        lemma_remove_member(pre, i as int, id);
                        assert(self.members@ == pre.remove(i as int));
                        assert forall|x: u64| self@.contains(x) == old(self)@.remove(id).contains(
                            x,
                        ) by {
                            assert(self@.contains(x) == self.members@.contains(x));
                            assert(pre.remove(i as int).contains(x) <==> pre.contains(x) && x
                                != id);
                            assert(old(self)@.contains(x) == pre.contains(x));
                            assert(old(self)@.remove(id).contains(x) == (old(self)@.contains(x)
                                && x != id));
                        }
                        assert(self@ =~= old(self)@.remove(id));
                    }
                    return ;
                }
                i = i + 1;
            }
            proof {
                assert(!pre.contains(id));
                assert(self@ =~= old(self)@.remove(id));
            }
        }
    }
}

proof fn lemma_remove_member(s: Seq<u64>, i: int, id: u64)
    requires
        s.no_duplicates(),
        0 <= i < s.len(),
        s[i] == id,
    ensures
        s.remove(i).no_duplicates(),
        forall|x: u64| #[trigger] s.remove(i).contains(x) <==> s.contains(x) && x != id,
{
    let s2 = s.remove(i);
    assert forall|x: u64| #[trigger] s2.contains(x) implies s.contains(x) && x != id by {
        let j = choose|j: int| 0 <= j < s2.len() && s2[j] == x;
        let j0 = if j < i {
            j
        } else {
            j + 1
        };
        assert(s[j0] == x);
        assert(j0 != i);
    }
    assert forall|x: u64| s.contains(x) && x != id implies #[trigger] s2.contains(x) by {
        let j = choose|j: int| 0 <= j < s.len() && s[j] == x;
        assert(j != i);
        if j < i {
            assert(s2[j] == x);
        } else {
            assert(s2[j - 1] == x);
        }
    }
}

} // verus!

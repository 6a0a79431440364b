//! A table of sessions keyed by their id strings, each id at most once.
use vstd::prelude::*;

use crate::text::views;

verus! {

/// The first position of `k` in `ks` from `i` on.
pub open spec fn position_from(ks: Seq<Seq<char>>, k: Seq<char>, i: int) -> Option<int>
    decreases ks.len() - i,
{
    if i < 0 || i >= ks.len() {
        None
    } else if ks[i] == k {
        Some(i)
    } else {
        position_from(ks, k, i + 1)
    }
}

pub proof fn lemma_position_from(ks: Seq<Seq<char>>, k: Seq<char>, i: int)
    requires
        0 <= i,
    ensures
        match position_from(ks, k, i) {
            Some(p) => i <= p < ks.len() && ks[p] == k && forall|j: int| i <= j < p ==> ks[j] != k,
            None => forall|j: int| i <= j < ks.len() ==> ks[j] != k,
        },
    decreases ks.len() - i,
{
    if i < ks.len() && ks[i] != k {
        lemma_position_from(ks, k, i + 1);
    }
}

/// Sessions by id, in the order they were first added.
#[derive(Debug)]
pub struct SessionTable<V> {
    keys: Vec<String>,
    vals: Vec<V>,
}

impl<V> SessionTable<V> {
    /// The ids, in order.
    pub closed spec fn key_seq(&self) -> Seq<Seq<char>> {
        views(self.keys@)
    }

    /// The sessions, in the order of their ids.
    pub closed spec fn val_seq(&self) -> Seq<V> {
        self.vals@
    }

    /// Ids and sessions correspond one to one, and no id occurs twice.
    pub open spec fn wf(&self) -> bool {
        &&& self.key_seq().len() == self.val_seq().len()
        &&& self.key_seq().no_duplicates()
    }

    /// The session stored under `k`.
    pub open spec fn lookup(&self, k: Seq<char>) -> Option<V> {
        match position_from(self.key_seq(), k, 0) {
            Some(i) => Some(self.val_seq()[i]),
            None => None,
        }
    }

    pub open spec fn len_spec(&self) -> nat {
        self.key_seq().len()
    }

    pub fn new() -> (t: Self)
        ensures
            t.wf(),
            t.key_seq().len() == 0,
            forall|k: Seq<char>| #[trigger] t.lookup(k).is_none(),
    {
        let t = SessionTable { keys: Vec::new(), vals: Vec::new() };
        assert(t.key_seq() =~= Seq::<Seq<char>>::empty());
        t
    }

    pub fn len(&self) -> (n: usize)
        requires
            self.wf(),
        ensures
            n == self.len_spec(),
    {
        self.keys.len()
    }

    /// The position of `k`.
    fn find(&self, k: &str) -> (r: Option<usize>)
        requires
            self.wf(),
        ensures
            match r {
                Some(i) => i < self.key_seq().len() && position_from(self.key_seq(), k@, 0) == Some(
                    i as int,
                ),
                None => position_from(self.key_seq(), k@, 0).is_none(),
            },
    {
        let mut i: usize = 0;
        while i < self.keys.len()
            invariant
                i <= self.keys.len(),
                self.key_seq() == views(self.keys@),
                position_from(self.key_seq(), k@, 0) == position_from(self.key_seq(), k@, i as int),
            decreases self.keys.len() - i,
        {
            if self.keys[i] == k.to_owned() {
                return Some(i);
            }
            i = i + 1;
        }
        None
    }

    /// The session stored under `k`.
    pub fn get(&self, k: &str) -> (r: Option<&V>)
        requires
            self.wf(),
        ensures
            match r {
                Some(v) => self.lookup(k@) == Some(*v),
                None => self.lookup(k@).is_none(),
            },
    {
        match self.find(k) {
            Some(i) => Some(&self.vals[i]),
            None => None,
        }
    }

    /// The `i`-th session.
    pub fn value_at(&self, i: usize) -> (r: &V)
        requires
            self.wf(),
            i < self.len_spec(),
        ensures
            *r == self.val_seq()[i as int],
    {
        &self.vals[i]
    }

    /// The `i`-th id.
    pub fn key_at(&self, i: usize) -> (r: &String)
        requires
            self.wf(),
            i < self.len_spec(),
        ensures
            r@ == self.key_seq()[i as int],
    {
        &self.keys[i]
    }

    /// Stores `v` under `k`, replacing the session stored there.
    pub fn insert(&mut self, k: String, v: V)
        requires
            old(self).wf(),
        ensures
            final(self).wf(),
            final(self).lookup(k@) == Some(v),
            forall|j: Seq<char>| j != k@ ==> #[trigger] final(self).lookup(j) == old(self).lookup(j),
            old(self).lookup(k@).is_some() ==> final(self).len_spec() == old(self).len_spec(),
            old(self).lookup(k@).is_none() ==> final(self).len_spec() == old(self).len_spec() + 1,
    {
        let ghost ks = self.key_seq();
        proof {
            lemma_position_from(ks, k@, 0);
        }
        match self.find(k.as_str()) {
            Some(i) => {
                self.vals.set(i, v);
                assert(self.key_seq() == ks);
                assert forall|j: Seq<char>| j != k@ implies #[trigger] self.lookup(j) == old(
                    self,
                ).lookup(j) by {
                    lemma_position_from(ks, j, 0);
                }
            },
            None => {
                let ghost kv = k@;
                self.keys.push(k);
                self.vals.push(v);
                let ghost ks2 = self.key_seq();
                assert(ks2 =~= ks.push(kv));
                assert(ks2.no_duplicates()) by {
                    assert forall|a: int, b: int|
                        0 <= a < ks2.len() && 0 <= b < ks2.len() && a != b implies ks2[a]
                        != ks2[b] by {
                        if a < ks.len() && b < ks.len() {
                            assert(ks2[a] == ks[a] && ks2[b] == ks[b]);
                        } else if a < ks.len() {
                            assert(ks2[a] == ks[a]);
                        } else if b < ks.len() {
                            assert(ks2[b] == ks[b]);
                        }
                    }
                }
                proof {
                    lemma_position_from(ks2, kv, 0);
                    assert(ks2[ks.len() as int] == kv);
                }
                assert forall|j: Seq<char>| j != kv implies #[trigger] self.lookup(j) == old(
                    self,
                ).lookup(j) by {
                    lemma_position_from(ks, j, 0);
                    lemma_position_from(ks2, j, 0);
                    match position_from(ks, j, 0) {
                        Some(p) => {
                            assert(ks2[p] == ks[p]);
                            match position_from(ks2, j, 0) {
                                Some(q) => {
                                    if q < p {
                                        assert(ks2[q] == ks[q]);
                                    }
                                },
                                None => {},
                            }
                        },
                        None => {
                            match position_from(ks2, j, 0) {
                                Some(q) => {
                                    if q < ks.len() {
                                        assert(ks2[q] == ks[q]);
                                    }
                                },
                                None => {},
                            }
                        },
                    }
                }
            },
        }
    }

    /// Removes the session stored under `k`, returning it.
    pub fn remove(&mut self, k: &str) -> (r: Option<V>)
        requires
            old(self).wf(),
        ensures
            final(self).wf(),
            r == old(self).lookup(k@),
            final(self).lookup(k@).is_none(),
            forall|j: Seq<char>| j != k@ ==> #[trigger] final(self).lookup(j) == old(self).lookup(j),
            r.is_some() ==> final(self).len_spec() + 1 == old(self).len_spec(),
            r.is_none() ==> final(self).len_spec() == old(self).len_spec(),
    {
        let ghost ks = self.key_seq();
        proof {
            lemma_position_from(ks, k@, 0);
        }
        match self.find(k) {
            Some(i) => {
                self.keys.remove(i);
                let v = self.vals.remove(i);
                let ghost ks2 = self.key_seq();
                assert(ks2 =~= ks.remove(i as int));
                assert forall|a: int, b: int|
                    0 <= a < ks2.len() && 0 <= b < ks2.len() && a != b implies ks2[a] != ks2[b] by {
                    let a0 = if a < i {
                        a
                    } else {
                        a + 1
                    };
                    let b0 = if b < i {
                        b
                    } else {
                        b + 1
                    };
                    assert(ks2[a] == ks[a0] && ks2[b] == ks[b0]);
                }
                assert forall|j: Seq<char>| #[trigger] self.lookup(j) == (if j == k@ {
                    None
                } else {
                    old(self).lookup(j)
                }) by {
                    lemma_position_from(ks, j, 0);
                    lemma_position_from(ks2, j, 0);
                    match position_from(ks2, j, 0) {
                        Some(q) => {
                            let q0 = if q < i {
                                q
                            } else {
                                q + 1
                            };
                            assert(ks[q0] == j);
                            assert(self.val_seq()[q] == old(self).val_seq()[q0]);
                            if j == k@ {
                                assert(q0 != i);
                            }
                            match position_from(ks, j, 0) {
                                Some(p) => {
                                    if p != q0 {
                                        assert(ks[p] == ks[q0]);
                                    }
                                },
                                None => {},
                            }
                        },
                        None => {
                            match position_from(ks, j, 0) {
                                Some(p) => {
                                    if p < i {
                                        assert(ks2[p] == ks[p]);
                                    } else if p > i {
                                        assert(ks2[p - 1] == ks[p]);
                                    }
                                },
                                None => {},
                            }
                        },
                    }
                }
                Some(v)
            },
            None => None,
        }
    }

    /// Removes every session.
    pub fn clear(&mut self)
        ensures
            final(self).wf(),
            final(self).len_spec() == 0,
            forall|k: Seq<char>| #[trigger] final(self).lookup(k).is_none(),
    {
        self.keys = Vec::new();
        self.vals = Vec::new();
        assert(self.key_seq() =~= Seq::<Seq<char>>::empty());
    }

    /// Every id stored is found, with the session at the same position.
    pub proof fn lemma_lookup_at(&self, i: int)
        requires
            self.wf(),
            0 <= i < self.len_spec(),
        ensures
            self.lookup(self.key_seq()[i]) == Some(self.val_seq()[i]),
    {
        lemma_position_from(self.key_seq(), self.key_seq()[i], 0);
        match position_from(self.key_seq(), self.key_seq()[i], 0) {
            Some(p) => {
                if p != i {
                    assert(self.key_seq()[p] == self.key_seq()[i]);
                }
            },
            None => {},
        }
    }
}

} // verus!

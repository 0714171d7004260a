//! At most one fetch-or-cache call per cache key at a time.
//!
//! A call takes its key before its first step and gives it back after its
//! last, so the invalidate-then-write window of one call is never seen by
//! another call on the same key.
use vstd::prelude::*;

verus! {

/// The keys whose calls are in progress.
pub struct InFlight {
    keys: Vec<String>,
}

/// What taking `key` does to the keys held: whether it was free, and the
/// keys held afterwards.
pub open spec fn after_acquire(held: Set<Seq<char>>, key: Seq<char>) -> (bool, Set<Seq<char>>) {
    if held.contains(key) {
        (false, held)
    } else {
        (true, held.insert(key))
    }
}

impl View for InFlight {
    type V = Set<Seq<char>>;

    closed spec fn view(&self) -> Set<Seq<char>> {
        self.keys@.map_values(|s: String| s@).to_set()
    }
}

impl InFlight {
    pub closed spec fn wf(&self) -> bool {
        self.keys@.map_values(|s: String| s@).no_duplicates()
    }

    /// No key is held.
    pub fn new() -> (r: InFlight)
        ensures
            r.wf(),
            r@ == Set::<Seq<char>>::empty(),
    {
        let r = InFlight { keys: Vec::new() };
        proof {
            assert(r.keys@.map_values(|s: String| s@) =~= Seq::<Seq<char>>::empty());
        }
        r
    }

    /// Whether a call for `key` is in progress.
    pub fn is_held(&self, key: &String) -> (r: bool)
        ensures
            r == self@.contains(key@),
    {
        let ghost v = self.keys@.map_values(|s: String| s@);
        let mut i: usize = 0;
        while i < self.keys.len()
            invariant
                0 <= i <= self.keys@.len(),
                v == self.keys@.map_values(|s: String| s@),
                forall|j: int| 0 <= j < i ==> v[j] != key@,
            decreases self.keys@.len() - i,
        {
            if self.keys[i] == *key {
                proof {
                    assert(v[i as int] == key@);
                }
                return true;
            }
            i = i + 1;
        }
        proof {
            if v.to_set().contains(key@) {
                let k = v.index_of(key@);
            }
        }
        false
    }

    /// Takes `key` for a call where no call holds it; returns whether it did.
    pub fn try_acquire(&mut self, key: &String) -> (r: bool)
        requires
            old(self).wf(),
        ensures
            final(self).wf(),
            (r, final(self)@) == after_acquire(old(self)@, key@),
    {
        if self.is_held(key) {
            false
        } else {
            let ghost v0 = self.keys@.map_values(|s: String| s@);
            self.keys.push(key.clone());
            proof {
                let v1 = self.keys@.map_values(|s: String| s@);
                assert(v1 =~= v0 + seq![key@]);
                Seq::lemma_to_set_insert_commutes(v0, key@);
                assert forall|x: int, y: int| 0 <= x < y < v1.len() implies v1[x] != v1[y] by {
                    if y == v0.len() {
                        assert(v0.contains(v1[x]));
                    }
                }
            }
            true
        }
    }

    /// Gives `key` back; other keys stay as they are.
    pub fn release(&mut self, key: &String)
        requires
            old(self).wf(),
        ensures
            final(self).wf(),
            final(self)@ == old(self)@.remove(key@),
    {
        let ghost v0 = self.keys@.map_values(|s: String| s@);
        let mut i: usize = 0;
        while i < self.keys.len()
            invariant
                0 <= i <= self.keys@.len(),
                v0 == self.keys@.map_values(|s: String| s@),
                self.keys@ == old(self).keys@,
                v0.no_duplicates(),
                forall|j: int| 0 <= j < i ==> v0[j] != key@,
            decreases self.keys@.len() - i,
        {
            if self.keys[i] == *key {
                proof {
                    assert(v0[i as int] == key@);
                }
                self.keys.remove(i);
                proof {
                    let v1 = self.keys@.map_values(|s: String| s@);
                    assert(v1 =~= v0.remove(i as int));
                    assert forall|a: Seq<char>| v1.contains(a) <==> (v0.contains(a) && a != key@) by {
                        if v1.contains(a) {
                            let k = v1.index_of(a);
                            let kk = if k < i { k } else { k + 1 };
                            assert(v0[kk] == a);
                            assert(kk != i);
                            assert(v0[i as int] == key@);
                        }
                        if v0.contains(a) && a != key@ {
                            let k = v0.index_of(a);
                            if k < i {
                                assert(v1[k] == a);
                            } else {
                                assert(k != i);
                                assert(v1[k - 1] == a);
                            }
                        }
                    }
                    assert(v1.to_set() =~= v0.to_set().remove(key@));
                    assert forall|x: int, y: int| 0 <= x < y < v1.len() implies v1[x] != v1[y] by {
                        let xx = if x < i { x } else { x + 1 };
                        let yy = if y < i { y } else { y + 1 };
                        assert(v1[x] == v0[xx]);
                        assert(v1[y] == v0[yy]);
                    }
                }
                return;
            }
            i = i + 1;
        }
        proof {
            assert(!v0.contains(key@));
            assert(v0.to_set() =~= v0.to_set().remove(key@));
        }
    }
}

/// While a call holds a key, a second call on that key cannot start; once
/// the key is given back, it can.
pub proof fn lemma_one_call_per_key(held: Set<Seq<char>>, key: Seq<char>)
    requires
        !held.contains(key),
    ensures
        after_acquire(held, key).0,
        !after_acquire(after_acquire(held, key).1, key).0,
        after_acquire(after_acquire(held, key).1.remove(key), key).0,
{
}

} // verus!

//! The pool of outbound packet identifiers that one client has in flight.
//!
//! The identifiers are kept in ascending order, so that the smallest free one
//! is found by bisection.

use crate::registry::Record;
use vstd::prelude::*;

verus! {

/// The largest packet identifier.
pub const PKID_MAX: u16 = 65535;

/// `pkid` is the smallest identifier from 1 up that `held` does not contain.
pub open spec fn is_smallest_free(held: Set<u16>, pkid: u16) -> bool {
    &&& 1 <= pkid
    &&& !held.contains(pkid)
    &&& forall|q: u16| 1 <= q < pkid ==> held.contains(q)
}

/// `held` contains every identifier from 1 to 65535.
pub open spec fn exhausted(held: Set<u16>) -> bool {
    forall|q: u16| 1 <= q ==> held.contains(q)
}

/// Each element is smaller than the ones after it.
pub open spec fn ascending(s: Seq<u16>) -> bool {
    forall|i: int, j: int| 0 <= i < j < s.len() ==> s[i] < s[j]
}

/// In an ascending sequence two elements lie at least as far apart as their positions.
pub proof fn lemma_ascending_gap(s: Seq<u16>, i: int, j: int)
    requires
        ascending(s),
        0 <= i <= j < s.len(),
    ensures
        s[j] - s[i] >= j - i,
    decreases j - i,
{
    if i < j {
        lemma_ascending_gap(s, i, j - 1);
        assert(s[j - 1] < s[j]);
    }
}

/// At most one identifier is the smallest free one.
pub proof fn lemma_smallest_free_unique(held: Set<u16>, p: u16, q: u16)
    requires
        is_smallest_free(held, p),
        is_smallest_free(held, q),
    ensures
        p == q,
{
    if p < q {
        assert(held.contains(p));
    } else if q < p {
        assert(held.contains(q));
    }
}

/// The packet identifiers that a client has in flight.
#[derive(Debug)]
pub struct PkidPool {
    ids: Vec<u16>,
}

impl View for PkidPool {
    type V = Set<u16>;

    closed spec fn view(&self) -> Set<u16> {
        self.ids@.to_set()
    }
}

impl Record for PkidPool {
    closed spec fn wf(&self) -> bool {
        &&& ascending(self.ids@)
        &&& forall|i: int| 0 <= i < self.ids@.len() ==> 1 <= #[trigger] self.ids@[i]
    }
}

impl PkidPool {
    /// The identifiers in ascending order.
    pub closed spec fn ordered(&self) -> Seq<u16> {
        self.ids@
    }

    /// A pool holds each identifier once, none of them zero, and so at most 65535.
    pub proof fn lemma_bounds(&self)
        requires
            self.wf(),
        ensures
            self@.finite(),
            self@.len() == self.ordered().len(),
            self.ordered().no_duplicates(),
            self.ordered().to_set() == self@,
            self@.len() <= 65535,
            !self@.contains(0),
            forall|p: u16| self@.contains(p) ==> 1 <= p <= 65535,
    {
        let s = self.ids@;
        assert(s.no_duplicates()) by {
            assert forall|i: int, j: int| 0 <= i < s.len() && 0 <= j < s.len() && i != j implies s[i]
                != s[j] by {
                if i < j {
                    assert(s[i] < s[j]);
                } else {
                    assert(s[j] < s[i]);
                }
            }
        }
        vstd::seq_lib::seq_to_set_is_finite(s);
        s.unique_seq_to_set();
        if s.len() > 0 {
            lemma_ascending_gap(s, 0, s.len() - 1);
        }
    }

    /// An empty pool.
    pub fn new() -> (pool: PkidPool)
        ensures
            pool.wf(),
            pool@ == Set::<u16>::empty(),
    {
        let pool = PkidPool { ids: Vec::new() };
        assert(pool@ =~= Set::<u16>::empty());
        pool
    }

    /// The number of identifiers in flight.
    pub fn len(&self) -> (n: usize)
        requires
            self.wf(),
        ensures
            n == self@.len(),
            n <= 65535,
    {
        proof {
            self.lemma_bounds();
        }
        self.ids.len()
    }

    /// The position of `pkid` among the identifiers, or the position at which
    /// it would have to be inserted.
    fn position(&self, pkid: u16) -> (at: usize)
        requires
            self.wf(),
        ensures
            at <= self.ids@.len(),
            forall|j: int| 0 <= j < at ==> self.ids@[j] < pkid,
            forall|j: int| at <= j < self.ids@.len() ==> self.ids@[j] >= pkid,
    {
        let mut lo: usize = 0;
        let mut hi: usize = self.ids.len();
        while lo < hi
            invariant
                self.wf(),
                lo <= hi <= self.ids@.len(),
                forall|j: int| 0 <= j < lo ==> self.ids@[j] < pkid,
                forall|j: int| hi <= j < self.ids@.len() ==> self.ids@[j] >= pkid,
            decreases hi - lo,
        {
            let mid = lo + (hi - lo) / 2;
            if self.ids[mid] < pkid {
                assert forall|j: int| 0 <= j < mid + 1 implies self.ids@[j] < pkid by {
                    if j < mid {
                        assert(self.ids@[j] < self.ids@[mid as int]);
                    }
                }
                lo = mid + 1;
            } else {
                assert forall|j: int| mid <= j < self.ids@.len() implies self.ids@[j] >= pkid by {
                    if mid < j {
                        assert(self.ids@[mid as int] < self.ids@[j]);
                    }
                }
                hi = mid;
            }
        }
        lo
    }

    /// Whether `pkid` is in flight.
    pub fn contains(&self, pkid: u16) -> (held: bool)
        requires
            self.wf(),
        ensures
            held == self@.contains(pkid),
    {
        let at = self.position(pkid);
        if at < self.ids.len() && self.ids[at] == pkid {
            true
        } else {
            assert forall|j: int| 0 <= j < self.ids@.len() implies self.ids@[j] != pkid by {
                if at < j {
                    assert(self.ids@[at as int] < self.ids@[j]);
                }
            }
            false
        }
    }

    /// The number of leading identifiers that lie at their own position, the
    /// first being 1: the pool holds 1, 2, .., `dense` and not `dense + 1`.
    fn dense_prefix(&self) -> (dense: usize)
        requires
            self.wf(),
        ensures
            dense <= self.ids@.len() <= 65535,
            forall|j: int| 0 <= j < dense ==> self.ids@[j] == j + 1,
            forall|j: int| dense <= j < self.ids@.len() ==> self.ids@[j] > j + 1,
    {
        proof {
            self.lemma_bounds();
        }
        let mut lo: usize = 0;
        let mut hi: usize = self.ids.len();
        while lo < hi
            invariant
                self.wf(),
                lo <= hi <= self.ids@.len() <= 65535,
                forall|j: int| 0 <= j < lo ==> self.ids@[j] == j + 1,
                forall|j: int| hi <= j < self.ids@.len() ==> self.ids@[j] > j + 1,
            decreases hi - lo,
        {
            let mid = lo + (hi - lo) / 2;
            proof {
                lemma_ascending_gap(self.ids@, 0, mid as int);
            }
            if self.ids[mid] as usize == mid + 1 {
                assert forall|j: int| 0 <= j < mid + 1 implies self.ids@[j] == j + 1 by {
                    lemma_ascending_gap(self.ids@, 0, j);
                    lemma_ascending_gap(self.ids@, j, mid as int);
                }
                lo = mid + 1;
            } else {
                assert forall|j: int| mid <= j < self.ids@.len() implies self.ids@[j] > j + 1 by {
                    lemma_ascending_gap(self.ids@, mid as int, j);
                }
                hi = mid;
            }
        }
        lo
    }

    /// Takes the smallest free identifier into the pool and returns it; returns
    /// nothing, and leaves the pool as it is, where all 65535 are in flight.
    pub fn acquire(&mut self) -> (granted: Option<u16>)
        requires
            old(self).wf(),
        ensures
            final(self).wf(),
            match granted {
                Some(pkid) => is_smallest_free(old(self)@, pkid) && final(self)@ == old(self)@.insert(
                    pkid,
                ),
                None => exhausted(old(self)@) && final(self)@ == old(self)@,
            },
    {
        let dense = self.dense_prefix();
        if dense >= PKID_MAX as usize {
            assert forall|q: u16| 1 <= q implies self@.contains(q) by {
                assert(self.ids@[q - 1] == q);
            }
            return None;
        }
        let pkid = (dense + 1) as u16;
        self.ids.insert(dense, pkid);
        proof {
            let before = old(self).ids@;
            let after = self.ids@;
            assert forall|q: u16| 1 <= q < pkid implies old(self)@.contains(q) by {
                assert(before[q - 1] == q);
            }
            assert forall|i: int, j: int| 0 <= i < j < after.len() implies after[i] < after[j] by {
                if j < dense {
                    assert(before[i] < before[j]);
                } else if j == dense {
                } else if i < dense {
                    assert(before[j - 1] > j);
                } else if i == dense {
                    assert(before[j - 1] > j);
                } else {
                    assert(before[i - 1] < before[j - 1]);
                }
            }
            assert forall|x: u16| after.to_set().contains(x) <==> before.to_set().insert(
                pkid,
            ).contains(x) by {
                if before.contains(x) {
                    let i = choose|i: int| 0 <= i < before.len() && before[i] == x;
                    if i < dense {
                        assert(after[i] == x);
                    } else {
                        assert(after[i + 1] == x);
                    }
                }
                if x == pkid {
                    assert(after[dense as int] == x);
                }
                if after.contains(x) {
                    let i = choose|i: int| 0 <= i < after.len() && after[i] == x;
                    if i < dense {
                        assert(before[i] == x);
                    } else if i > dense {
                        assert(before[i - 1] == x);
                    }
                }
            }
            assert(self@ =~= old(self)@.insert(pkid));
        }
        Some(pkid)
    }

    /// Takes `pkid` out of the pool; a pool that does not hold it stays as it is.
    pub fn release(&mut self, pkid: u16)
        requires
            old(self).wf(),
        ensures
            final(self).wf(),
            final(self)@ == old(self)@.remove(pkid),
    {
        let at = self.position(pkid);
        if at < self.ids.len() && self.ids[at] == pkid {
            let _ = self.ids.remove(at);
            proof {
                let before = old(self).ids@;
                let after = self.ids@;
                assert forall|i: int, j: int| 0 <= i < j < after.len() implies after[i] < after[j] by {
                    let bi = if i < at { i } else { i + 1 };
                    let bj = if j < at { j } else { j + 1 };
                    assert(before[bi] < before[bj]);
                }
                assert forall|x: u16| after.to_set().contains(x) <==> before.to_set().remove(
                    pkid,
                ).contains(x) by {
                    if before.contains(x) && x != pkid {
                        let i = choose|i: int| 0 <= i < before.len() && before[i] == x;
                        if i < at {
                            assert(after[i] == x);
                        } else {
                            assert(after[i - 1] == x);
                        }
                    }
                    if after.contains(x) {
                        let i = choose|i: int| 0 <= i < after.len() && after[i] == x;
                        if i < at {
                            assert(before[i] == x);
                            assert(before[i] < before[at as int]);
                        } else {
                            assert(before[i + 1] == x);
                            assert(before[at as int] < before[i + 1]);
                        }
                    }
                }
                assert(self@ =~= old(self)@.remove(pkid));
            }
        } else {
            proof {
                assert forall|j: int| 0 <= j < self.ids@.len() implies self.ids@[j] != pkid by {
                    if at < j {
                        assert(self.ids@[at as int] < self.ids@[j]);
                    }
                }
                assert(self@ =~= old(self)@.remove(pkid));
            }
        }
    }
}

impl Clone for PkidPool {
    fn clone(&self) -> (copy: PkidPool)
        ensures
            copy@ == self@,
            self.wf() ==> copy.wf(),
    {
        let ids = self.ids.clone();
        assert(ids@ =~= self.ids@);
        PkidPool { ids }
    }
}

/// Releasing the identifier that was just acquired gives back the pool as it was.
pub proof fn lemma_acquire_then_release(held: Set<u16>, pkid: u16)
    requires
        is_smallest_free(held, pkid),
    ensures
        held.insert(pkid).remove(pkid) == held,
{
    assert(held.insert(pkid).remove(pkid) =~= held);
}

} // verus!

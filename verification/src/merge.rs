//! Fan-in selection logics: which input lane a merge stage takes its next element from.
use vstd::prelude::*;

verus! {

/// The contents of the lanes, as sequences.
pub open spec fn lanes<T>(pending: Seq<Vec<T>>) -> Seq<Seq<T>> {
    pending.map_values(|q: Vec<T>| q@)
}

/// Whether every lane is empty.
pub open spec fn all_empty<T>(ls: Seq<Seq<T>>) -> bool {
    forall|j: int| 0 <= j < ls.len() ==> (#[trigger] ls[j]).len() == 0
}

/// Takes the oldest element of lane `i`.
fn pop_lane<T>(pending: &mut Vec<Vec<T>>, i: usize) -> (r: T)
    requires i < old(pending)@.len(), old(pending)@[i as int]@.len() > 0,
    ensures
        r == old(pending)@[i as int]@[0],
        lanes(final(pending)@) == lanes(old(pending)@).update(i as int, old(pending)@[i as int]@.drop_first()),
{
    let ghost before = lanes(pending@);
    let mut lane = pending.remove(i);
    let v = lane.remove(0);
    pending.insert(i, lane);
    proof { assert(lanes(pending@) =~= before.update(i as int, before[i as int].drop_first())); }
    v
}

/// Merge logic that always prefers the lowest-numbered lane that has an element.
pub struct MergePreferredLogic<T> {
    pub fan_in: usize,
    pub edge_slots: Vec<usize>,
    pub pending: Vec<Vec<T>>,
    pub source_done: bool,
}

/// `i` is the first non-empty lane of `ls`, or `ls.len()` when all are empty.
pub open spec fn first_non_empty<T>(ls: Seq<Seq<T>>, i: int) -> bool {
    &&& 0 <= i <= ls.len()
    &&& forall|j: int| 0 <= j < i ==> (#[trigger] ls[j]).len() == 0
    &&& i < ls.len() ==> ls[i].len() > 0
}

impl<T> MergePreferredLogic<T> {
    /// Takes the oldest element of the first non-empty lane.
    #[verifier::loop_isolation(false)]
    pub fn pop_preferred(&mut self) -> (r: Option<T>)
        ensures
            exists|i: int| #[trigger] first_non_empty(lanes(old(self).pending@), i)
                && (i == old(self).pending@.len() ==> r is None && lanes(final(self).pending@) == lanes(old(self).pending@))
                && (i < old(self).pending@.len() ==> r == Some(old(self).pending@[i]@[0])
                    && lanes(final(self).pending@) == lanes(old(self).pending@).update(i, old(self).pending@[i]@.drop_first())),
            final(self).fan_in == old(self).fan_in,
            final(self).edge_slots@ == old(self).edge_slots@,
            final(self).source_done == old(self).source_done,
    {
        let ghost ls = lanes(self.pending@);
        let mut i: usize = 0;
        while i < self.pending.len()
            invariant
                i <= self.pending@.len(),
                ls == lanes(self.pending@),
                self.fan_in == old(self).fan_in,
                self.edge_slots@ == old(self).edge_slots@,
                self.source_done == old(self).source_done,
                ls == lanes(old(self).pending@),
                forall|j: int| 0 <= j < i ==> (#[trigger] ls[j]).len() == 0,
            decreases self.pending@.len() - i,
        {
            if self.pending[i].len() > 0 {
                let v = pop_lane(&mut self.pending, i);
                proof {
                    assert(first_non_empty(ls, i as int));
                    assert(ls[i as int] == old(self).pending@[i as int]@);
                }
                return Some(v);
            }
            i = i + 1;
        }
        proof { assert(first_non_empty(ls, i as int)); }
        None
    }
}

/// Merge logic that takes elements from the lanes in proportion to their priorities: each lane
/// spends one credit per element, lanes are visited round-robin from the current one, and when no
/// lane with credits has an element, every lane gets its priority back as credits and the visit
/// starts over from lane 0.
pub struct MergePrioritizedLogic<T> {
    pub fan_in: usize,
    pub priorities: Vec<usize>,
    pub edge_slots: Vec<usize>,
    pub pending: Vec<Vec<T>>,
    pub credits: Vec<usize>,
    pub current: usize,
    pub source_done: bool,
}

/// Whether lane `slot` may give an element: it has credits left and holds an element.
pub open spec fn eligible<T>(ls: Seq<Seq<T>>, credits: Seq<usize>, slot: int) -> bool {
    credits[slot] > 0 && ls[slot].len() > 0
}

/// `k` steps from `start`, going round the `n` lanes, reach the first eligible lane; `k == n` when
/// none is eligible.
pub open spec fn first_eligible_from<T>(ls: Seq<Seq<T>>, credits: Seq<usize>, start: int, k: int) -> bool {
    let n = ls.len() as int;
    &&& 0 <= k <= n
    &&& forall|j: int| 0 <= j < k ==> !eligible(ls, credits, #[trigger] ((start + j) % n))
    &&& k < n ==> eligible(ls, credits, (start + k) % n)
}

impl<T> MergePrioritizedLogic<T> {
    /// The lanes, priorities and credits line up, and the current lane is one of them.
    pub open spec fn well_formed(&self) -> bool {
        &&& self.pending@.len() == self.fan_in
        &&& self.priorities@.len() == self.fan_in
        &&& self.credits@.len() == self.fan_in
        &&& self.current < self.fan_in
    }

    /// No lane holds more credits than its priority.
    pub open spec fn credits_within_priorities(&self) -> bool {
        forall|i: int| 0 <= i < self.credits@.len() ==> #[trigger] self.credits@[i] <= self.priorities@[i]
    }

    /// Looks for the first eligible lane going round from `start`.
    fn find_from(&self, start: usize) -> (k: usize)
        requires self.well_formed(), start < self.fan_in,
        ensures first_eligible_from(lanes(self.pending@), self.credits@, start as int, k as int),
    {
        let n = self.fan_in;
        let ghost ls = lanes(self.pending@);
        let mut k: usize = 0;
        while k < n
            invariant
                self.well_formed(),
                n == self.fan_in,
                start < n,
                ls == lanes(self.pending@),
                k <= n,
                forall|j: int| 0 <= j < k ==> !eligible(ls, self.credits@, #[trigger] ((start + j) % (n as int))),
            decreases n - k,
        {
            let slot = if k < n - start { start + k } else { k - (n - start) };
            proof {
                if start + k < n {
                    assert((start + k) % (n as int) == start + k) by (nonlinear_arith) requires start + k < n, 0 <= start + k;
                } else {
                    assert((start + k) % (n as int) == start + k - n) by (nonlinear_arith)
                        requires start + k >= n, start + k < 2 * n;
                }
            }
            if self.credits[slot] > 0 && self.pending[slot].len() > 0 {
                return k;
            }
            k = k + 1;
        }
        k
    }

    /// Takes the next element by weighted round-robin; `None` when no lane can give one.
    pub fn pop_prioritized(&mut self) -> (r: Option<T>)
        requires old(self).well_formed(),
        ensures
            final(self).well_formed(),
            final(self).priorities@ == old(self).priorities@,
            final(self).fan_in == old(self).fan_in,
            old(self).credits_within_priorities() ==> final(self).credits_within_priorities(),
            r matches Some(v) ==> exists|slot: int| 0 <= slot < old(self).fan_in
                && v == old(self).pending@[slot]@[0]
                && lanes(final(self).pending@) == lanes(old(self).pending@).update(slot, old(self).pending@[slot]@.drop_first())
                && final(self).current == slot
                && (eligible(lanes(old(self).pending@), old(self).credits@, slot)
                    ==> final(self).credits@ == old(self).credits@.update(slot, (old(self).credits@[slot] - 1) as usize))
                && (!eligible(lanes(old(self).pending@), old(self).credits@, slot)
                    ==> final(self).credits@ == old(self).priorities@.update(slot, (old(self).priorities@[slot] - 1) as usize)),
            r is None ==> lanes(final(self).pending@) == lanes(old(self).pending@),
            all_empty(lanes(old(self).pending@)) ==> r is None,
            (exists|slot: int| 0 <= slot < old(self).fan_in && #[trigger] eligible(lanes(old(self).pending@), old(self).credits@, slot))
                ==> r is Some,
    {
        let n = self.fan_in;
        let ghost ls = lanes(self.pending@);
        let start = self.current;
        let k = self.find_from(start);
        if k < n {
            let slot = if k < n - start { start + k } else { k - (n - start) };
            proof {
                if start + k < n {
                    assert((start + k) % (n as int) == start + k) by (nonlinear_arith) requires start + k < n, 0 <= start + k;
                } else {
                    assert((start + k) % (n as int) == start + k - n) by (nonlinear_arith)
                        requires start + k >= n, start + k < 2 * n;
                }
            }
            let c = self.credits[slot];
            self.credits.set(slot, c - 1);
            self.current = slot;
            let v = pop_lane(&mut self.pending, slot);
            proof {
                assert(self.pending@.len() == lanes(self.pending@).len());
                assert(ls[slot as int] == old(self).pending@[slot as int]@);
                assert(eligible(ls, old(self).credits@, slot as int));
            }
            return Some(v);
        }
        proof {
            assert forall|slot: int| 0 <= slot < n implies !eligible(ls, self.credits@, slot) by {
                let j = if slot >= start { slot - start } else { slot + n - start };
                assert(0 <= j < n);
                assert((start + j) % (n as int) == slot) by (nonlinear_arith)
                    requires 0 <= slot < n, start + j == slot || start + j == slot + n, n > 0;
            }
        }
        let refill = self.priorities.clone();
        self.credits = refill;
        self.current = 0;
        let k2 = self.find_from(0);
        if k2 < n {
            proof { assert((0 + k2) % (n as int) == k2) by (nonlinear_arith) requires 0 <= k2 < n; }
            let slot = k2;
            let c = self.credits[slot];
            self.credits.set(slot, c - 1);
            self.current = slot;
            let v = pop_lane(&mut self.pending, slot);
            proof {
                assert(self.pending@.len() == lanes(self.pending@).len());
                assert(ls[slot as int] == old(self).pending@[slot as int]@);
                assert(!eligible(ls, old(self).credits@, slot as int));
            }
            return Some(v);
        }
        proof {
            assert forall|slot: int| 0 <= slot < n implies ls[slot].len() == 0 || old(self).priorities@[slot] == 0 by {
                assert((0 + slot) % (n as int) == slot) by (nonlinear_arith) requires 0 <= slot < n;
                assert(!eligible(ls, self.credits@, (0 + slot) % (n as int)));
            }
        }
        None
    }
}

} // verus!

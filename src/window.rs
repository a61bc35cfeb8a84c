//! The window model shared by the ring-buffer indicators.
//!
//! An indicator that keeps the last `n` inputs in a ring of `n` slots is
//! described by the whole sequence of inputs it was fed (its history): the
//! slot `j` holds the input that arrived `age_of(cur, n, j)` steps ago, where
//! `cur` is the slot written last, or nothing when fewer inputs arrived.
use crate::fixed::{fx_int, fx_max, fx_min, Fixed};
use vstd::prelude::*;

verus! {

/// The last `n` items of `s`, or all of them when there are fewer.
pub open spec fn last_n(s: Seq<Fixed>, n: nat) -> Seq<Fixed> {
    if s.len() <= n {
        s
    } else {
        s.subrange(s.len() - n, s.len() as int)
    }
}

/// Keeping one more item of the history and then taking the next input
/// gives the window of one more input.
pub proof fn lemma_last_n_push(h: Seq<Fixed>, n: nat, x: Fixed)
    ensures
        last_n(h, n).push(x) == last_n(h.push(x), n + 1),
        last_n(h.push(x), n + 1).len() == n + 1 ==> last_n(h.push(x), n + 1).drop_first()
            == last_n(h.push(x), n),
        last_n(h.push(x), n + 1).len() <= n ==> last_n(h.push(x), n + 1) == last_n(h.push(x), n),
{
    assert(last_n(h, n).push(x) =~= last_n(h.push(x), n + 1));
    if last_n(h.push(x), n + 1).len() == n + 1 {
        assert(last_n(h.push(x), n + 1).drop_first() =~= last_n(h.push(x), n));
    }
}

/// `r` is an item of `s` and no item of `s` is smaller.
pub open spec fn is_min_of(r: Fixed, s: Seq<Fixed>) -> bool {
    &&& exists|i: int| 0 <= i < s.len() && s[i] == r
    &&& forall|i: int| 0 <= i < s.len() ==> r.raw <= #[trigger] s[i].raw
}

/// `r` is an item of `s` and no item of `s` is larger.
pub open spec fn is_max_of(r: Fixed, s: Seq<Fixed>) -> bool {
    &&& exists|i: int| 0 <= i < s.len() && s[i] == r
    &&& forall|i: int| 0 <= i < s.len() ==> r.raw >= #[trigger] s[i].raw
}

/// The smallest item of a non-empty sequence.
pub open spec fn seq_min(s: Seq<Fixed>) -> Fixed
    decreases s.len(),
{
    if s.len() <= 1 {
        s[0]
    } else {
        fx_min(s.last(), seq_min(s.drop_last()))
    }
}

/// The largest item of a non-empty sequence.
pub open spec fn seq_max(s: Seq<Fixed>) -> Fixed
    decreases s.len(),
{
    if s.len() <= 1 {
        s[0]
    } else {
        fx_max(s.last(), seq_max(s.drop_last()))
    }
}

proof fn lemma_seq_min_is_min(s: Seq<Fixed>)
    requires
        s.len() >= 1,
    ensures
        is_min_of(seq_min(s), s),
    decreases s.len(),
{
    if s.len() > 1 {
        lemma_seq_min_is_min(s.drop_last());
        let m = seq_min(s.drop_last());
        let i0 = choose|i: int| 0 <= i < s.len() - 1 && s.drop_last()[i] == m;
        if s.last().raw < m.raw {
            assert(s[s.len() - 1] == seq_min(s));
        } else {
            assert(s[i0] == seq_min(s));
        }
        assert forall|i: int| 0 <= i < s.len() implies seq_min(s).raw <= #[trigger] s[i].raw by {
            if i < s.len() - 1 {
                assert(s.drop_last()[i] == s[i]);
            }
        }
    }
}

proof fn lemma_seq_max_is_max(s: Seq<Fixed>)
    requires
        s.len() >= 1,
    ensures
        is_max_of(seq_max(s), s),
    decreases s.len(),
{
    if s.len() > 1 {
        lemma_seq_max_is_max(s.drop_last());
        let m = seq_max(s.drop_last());
        let i0 = choose|i: int| 0 <= i < s.len() - 1 && s.drop_last()[i] == m;
        if s.last().raw > m.raw {
            assert(s[s.len() - 1] == seq_max(s));
        } else {
            assert(s[i0] == seq_max(s));
        }
        assert forall|i: int| 0 <= i < s.len() implies seq_max(s).raw >= #[trigger] s[i].raw by {
            if i < s.len() - 1 {
                assert(s.drop_last()[i] == s[i]);
            }
        }
    }
}

/// A minimum of a sequence is its `seq_min`: the minimum is unique.
pub proof fn lemma_min_unique(r: Fixed, s: Seq<Fixed>)
    requires
        is_min_of(r, s),
    ensures
        r == seq_min(s),
{
    lemma_seq_min_is_min(s);
    let i = choose|i: int| 0 <= i < s.len() && s[i] == r;
    let j = choose|j: int| 0 <= j < s.len() && s[j] == seq_min(s);
    assert(r.raw <= s[j].raw);
    assert(seq_min(s).raw <= s[i].raw);
}

/// A maximum of a sequence is its `seq_max`: the maximum is unique.
pub proof fn lemma_max_unique(r: Fixed, s: Seq<Fixed>)
    requires
        is_max_of(r, s),
    ensures
        r == seq_max(s),
{
    lemma_seq_max_is_max(s);
    let i = choose|i: int| 0 <= i < s.len() && s[i] == r;
    let j = choose|j: int| 0 <= j < s.len() && s[j] == seq_max(s);
    assert(r.raw >= s[j].raw);
    assert(seq_max(s).raw >= s[i].raw);
}

/// How many steps ago slot `j` of a ring of `n` slots was written.
pub open spec fn age_of(cur: int, n: int, j: int) -> int {
    if j <= cur {
        cur - j
    } else {
        cur + n - j
    }
}

/// The slot written `age` steps ago.
pub open spec fn slot_of(cur: int, n: int, age: int) -> int {
    if age <= cur {
        cur - age
    } else {
        cur + n - age
    }
}

/// The slot after `cur` in a ring of `n` slots.
pub open spec fn next_slot(cur: int, n: int) -> int {
    if cur + 1 == n {
        0
    } else {
        cur + 1
    }
}

/// What slot `j` holds after the inputs `hist`.
pub open spec fn ring_slot(hist: Seq<Fixed>, cur: int, n: int, j: int) -> Option<Fixed> {
    let age = age_of(cur, n, j);
    if age < hist.len() {
        Some(hist[hist.len() - 1 - age])
    } else {
        None
    }
}

/// The slots `v`, last written at `cur`, hold the inputs `hist`.
pub open spec fn ring_holds(v: Seq<Option<Fixed>>, hist: Seq<Fixed>, cur: int) -> bool {
    &&& v.len() >= 1
    &&& 0 <= cur < v.len()
    &&& forall|j: int| 0 <= j < v.len() ==> #[trigger] v[j] == ring_slot(hist, cur, v.len() as int, j)
}

/// Writing the next input into the next slot keeps the ring in step.
pub proof fn lemma_ring_push(v: Seq<Option<Fixed>>, hist: Seq<Fixed>, cur: int, x: Fixed)
    requires
        ring_holds(v, hist, cur),
    ensures
        ring_holds(
            v.update(next_slot(cur, v.len() as int), Some(x)),
            hist.push(x),
            next_slot(cur, v.len() as int),
        ),
{
    let n = v.len() as int;
    let c2 = next_slot(cur, n);
    let v2 = v.update(c2, Some(x));
    let h2 = hist.push(x);
    assert forall|j: int| 0 <= j < n implies #[trigger] v2[j] == ring_slot(h2, c2, n, j) by {
        if j != c2 {
            assert(age_of(c2, n, j) == age_of(cur, n, j) + 1);
            assert(v[j] == ring_slot(hist, cur, n, j));
        }
    }
}

/// Every item of the window sits in a slot, and every filled slot holds an
/// item of the window.
pub proof fn lemma_ring_window(v: Seq<Option<Fixed>>, hist: Seq<Fixed>, cur: int)
    requires
        ring_holds(v, hist, cur),
    ensures
        ({
            let n = v.len() as int;
            let w = last_n(hist, n as nat);
            &&& forall|i: int|
                0 <= i < w.len() ==> 0 <= #[trigger] slot_of(cur, n, w.len() - 1 - i) < n
                    && v[slot_of(cur, n, w.len() - 1 - i)] == Some(w[i])
            &&& forall|j: int|
                0 <= j < n && (#[trigger] v[j]) is Some ==> 0 <= age_of(cur, n, j) < w.len()
                    && w[w.len() - 1 - age_of(cur, n, j)] == v[j]->0
        }),
{
    let n = v.len() as int;
    let w = last_n(hist, n as nat);
    assert forall|i: int| 0 <= i < w.len() implies 0 <= #[trigger] slot_of(cur, n, w.len() - 1 - i)
        < n && v[slot_of(cur, n, w.len() - 1 - i)] == Some(w[i]) by {
        let j = slot_of(cur, n, w.len() - 1 - i);
        assert(age_of(cur, n, j) == w.len() - 1 - i);
        assert(v[j] == ring_slot(hist, cur, n, j));
    }
    assert forall|j: int| 0 <= j < n && (#[trigger] v[j]) is Some implies 0 <= age_of(cur, n, j)
        < w.len() && w[w.len() - 1 - age_of(cur, n, j)] == v[j]->0 by {
        assert(v[j] == ring_slot(hist, cur, n, j));
    }
}

/// What slot `j` of a zero-filled ring holds after the inputs `hist`.
pub open spec fn ring_value(hist: Seq<Fixed>, cur: int, n: int, j: int) -> Fixed {
    match ring_slot(hist, cur, n, j) {
        Some(x) => x,
        None => fx_int(0),
    }
}

/// The input that leaves a window of `n` when the next one arrives, or zero
/// while the window is not full.
pub open spec fn evicted(hist: Seq<Fixed>, n: int) -> Fixed {
    if hist.len() >= n {
        hist[hist.len() - n]
    } else {
        fx_int(0)
    }
}

/// A zero-filled ring of `n` slots holding the last `n` inputs.
pub struct ValueRing {
    vec: Vec<Fixed>,
    cur: usize,
    history: Ghost<Seq<Fixed>>,
}

impl ValueRing {
    pub closed spec fn size(&self) -> nat {
        self.vec@.len()
    }

    /// Every input pushed since construction or the last clear.
    pub closed spec fn history(&self) -> Seq<Fixed> {
        self.history@
    }

    pub closed spec fn wf(&self) -> bool {
        &&& self.vec@.len() >= 1
        &&& self.cur < self.vec@.len()
        &&& forall|j: int|
            0 <= j < self.vec@.len() ==> #[trigger] self.vec@[j] == ring_value(
                self.history@,
                self.cur as int,
                self.vec@.len() as int,
                j,
            )
    }

    pub fn new(n: usize) -> (r: Self)
        requires
            n >= 1,
        ensures
            r.wf(),
            r.size() == n,
            r.history() == Seq::<Fixed>::empty(),
    {
        let mut vec: Vec<Fixed> = Vec::new();
        while vec.len() < n
            invariant
                vec.len() <= n,
                forall|j: int| 0 <= j < vec.len() ==> vec@[j] == fx_int(0),
            decreases n - vec.len(),
        {
            vec.push(Fixed::zero());
        }
        ValueRing { vec, cur: 0, history: Ghost(Seq::empty()) }
    }

    /// Stores `x` over the oldest slot and returns what that slot held.
    pub fn push(&mut self, x: Fixed) -> (r: Fixed)
        requires
            old(self).wf(),
        ensures
            final(self).wf(),
            final(self).size() == old(self).size(),
            final(self).history() == old(self).history().push(x),
            r == evicted(old(self).history(), old(self).size() as int),
    {
        let ghost n = self.vec@.len() as int;
        let ghost hist = self.history@;
        let ghost cur = self.cur as int;
        let len = self.vec.len();
        assert(self.cur < len);
        let next = if self.cur + 1 == len { 0 } else { self.cur + 1 };
        let old_val = self.vec[next];
        proof {
            assert(self.vec@[next as int] == ring_value(hist, cur, n, next as int));
            assert(age_of(cur, n, next as int) == n - 1);
        }
        self.vec[next] = x;
        self.cur = next;
        self.history = Ghost(hist.push(x));
        proof {
            assert forall|j: int| 0 <= j < n implies #[trigger] self.vec@[j] == ring_value(
                self.history@,
                next as int,
                n,
                j,
            ) by {
                if j != next {
                    assert(age_of(next as int, n, j) == age_of(cur, n, j) + 1);
                    assert(old(self).vec@[j] == ring_value(hist, cur, n, j));
                }
            }
        }
        old_val
    }

    /// Sets every slot back to zero and forgets the inputs.
    pub fn clear(&mut self)
        requires
            old(self).wf(),
        ensures
            final(self).wf(),
            final(self).size() == old(self).size(),
            final(self).history() == Seq::<Fixed>::empty(),
    {
        let n = self.vec.len();
        let mut i: usize = 0;
        while i < n
            invariant
                n == self.vec.len(),
                i <= n,
                forall|j: int| 0 <= j < i ==> self.vec@[j] == fx_int(0),
            decreases n - i,
        {
            self.vec[i] = Fixed::zero();
            i = i + 1;
        }
        self.cur = 0;
        self.history = Ghost(Seq::empty());
    }
}

} // verus!

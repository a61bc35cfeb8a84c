use crate::errors::Error;
use crate::fixed::Fixed;
use crate::traits::Low;
use crate::window::{
    age_of, is_min_of, last_n, lemma_min_unique, seq_min, lemma_ring_push, lemma_ring_window, next_slot, ring_holds, slot_of,
};
use crate::label::{decimal, label1};
use crate::traits::{Next, Reset};
use vstd::prelude::*;

verus! {

/// Returns the lowest value of the last `n` inputs.
///
/// The inputs sit in a ring of `n` slots; the slot of the current minimum is
/// kept, and the ring is only scanned again when that slot is overwritten.
pub struct Minimum {
    vec: Vec<Option<Fixed>>,
    min_index: usize,
    cur_index: usize,
    history: Ghost<Seq<Fixed>>,
}

/// The filled slot `mi` holds a value no larger than any other filled slot.
pub open spec fn slot_is_min(v: Seq<Option<Fixed>>, mi: int) -> bool {
    &&& 0 <= mi < v.len()
    &&& v[mi] is Some
    &&& forall|j: int| 0 <= j < v.len() && (#[trigger] v[j]) is Some ==> v[mi]->0.raw <= v[j]->0.raw
}

proof fn lemma_slot_min_is_window_min(v: Seq<Option<Fixed>>, hist: Seq<Fixed>, cur: int, mi: int)
    requires
        ring_holds(v, hist, cur),
        slot_is_min(v, mi),
    ensures
        is_min_of(v[mi]->0, last_n(hist, v.len())),
{
    lemma_ring_window(v, hist, cur);
    let n = v.len() as int;
    let w = last_n(hist, v.len());
    let i0 = w.len() - 1 - age_of(cur, n, mi);
    assert(w[i0] == v[mi]->0);
    assert forall|i: int| 0 <= i < w.len() implies v[mi]->0.raw <= #[trigger] w[i].raw by {
        let j = slot_of(cur, n, w.len() - 1 - i);
        assert(v[j] == Some(w[i]));
    }
}

impl Minimum {
    /// Number of inputs the window spans.
    pub closed spec fn window_len(&self) -> nat {
        self.vec@.len()
    }

    /// Every input fed since construction or the last reset.
    pub closed spec fn history(&self) -> Seq<Fixed> {
        self.history@
    }

    pub closed spec fn wf(&self) -> bool {
        &&& ring_holds(self.vec@, self.history@, self.cur_index as int)
        &&& self.vec@.len() <= u32::MAX
        &&& 0 <= self.min_index < self.vec@.len()
        &&& self.history@.len() > 0 ==> slot_is_min(self.vec@, self.min_index as int)
    }

    /// Fails with `InvalidParameter` when `n` is zero.
    pub fn new(n: u32) -> (r: Result<Self, Error>)
        ensures
            n == 0 <==> r is Err,
            r matches Err(e) ==> e == Error::InvalidParameter,
            r matches Ok(m) ==> m.wf() && m.window_len() == n && m.history() == Seq::<Fixed>::empty(),
    {
        let n = n as usize;
        if n == 0 {
            return Err(Error::InvalidParameter);
        }
        let mut vec: Vec<Option<Fixed>> = Vec::new();
        while vec.len() < n
            invariant
                vec.len() <= n,
                forall|j: int| 0 <= j < vec.len() ==> vec@[j] is None,
            decreases n - vec.len(),
        {
            vec.push(None);
        }
        Ok(Minimum { vec, min_index: 0, cur_index: 0, history: Ghost(Seq::empty()) })
    }

    /// The first filled slot holding the smallest value, or `None` when
    /// every slot is empty.
    fn find_min_index(&self) -> (r: Option<usize>)
        ensures
            r is None <==> forall|j: int| 0 <= j < self.vec@.len() ==> self.vec@[j] is None,
            r matches Some(i) ==> slot_is_min(self.vec@, i as int) && forall|j: int|
                0 <= j < i && (#[trigger] self.vec@[j]) is Some ==> self.vec@[j]->0.raw > self.vec@[i as int]->0.raw,
    {
        let mut min_value: Option<Fixed> = None;
        let mut min_index: Option<usize> = None;
        let mut i: usize = 0;
        while i < self.vec.len()
            invariant
                i <= self.vec.len(),
                min_index is None ==> min_value is None,
                min_index is None ==> forall|j: int| 0 <= j < i ==> self.vec@[j] is None,
                min_index matches Some(mi) ==> mi < i && min_value is Some && self.vec@[mi as int]
                    == min_value && (forall|j: int|
                    0 <= j < i && (#[trigger] self.vec@[j]) is Some ==> min_value->0.raw
                        <= self.vec@[j]->0.raw) && (forall|j: int|
                    0 <= j < mi && (#[trigger] self.vec@[j]) is Some ==> self.vec@[j]->0.raw
                        > min_value->0.raw),
            decreases self.vec.len() - i,
        {
            if let Some(value) = self.vec[i] {
                match min_value {
                    Some(m) => {
                        if value.raw < m.raw {
                            min_index = Some(i);
                            min_value = Some(value);
                        }
                    },
                    None => {
                        min_index = Some(i);
                        min_value = Some(value);
                    },
                }
            }
            i = i + 1;
        }
        min_index
    }

    /// Feeds one input; returns the minimum of the last `n` inputs.
    pub fn next(&mut self, input: Fixed) -> (r: Fixed)
        requires
            old(self).wf(),
        ensures
            final(self).wf(),
            final(self).window_len() == old(self).window_len(),
            final(self).history() == old(self).history().push(input),
            is_min_of(r, last_n(final(self).history(), final(self).window_len())),
            r == seq_min(last_n(final(self).history(), final(self).window_len())),
    {
        proof {
            lemma_ring_push(self.vec@, self.history@, self.cur_index as int, input);
        }
        let n = self.vec.len();
        self.cur_index = if self.cur_index + 1 == n { 0 } else { self.cur_index + 1 };
        self.vec[self.cur_index] = Some(input);
        self.history = Ghost(self.history@.push(input));
        if self.min_index != self.cur_index && self.vec[self.min_index].is_some() {
            let m = self.vec[self.min_index].unwrap();
            if input.raw < m.raw {
                self.min_index = self.cur_index;
            }
        } else {
            assert(self.vec@[self.cur_index as int] is Some);
            self.min_index = match self.find_min_index() {
                Some(i) => i,
                None => self.cur_index,
            };
        }
        proof {
            lemma_slot_min_is_window_min(self.vec@, self.history@, self.cur_index as int, self.min_index as int);
        }
        let r = self.vec[self.min_index].unwrap();
        proof {
            lemma_min_unique(r, last_n(self.history@, self.vec@.len()));
        }
        r
    }

    /// Feeds the low of a bar.
    pub fn next_bar<B: Low>(&mut self, input: &B) -> (r: Fixed)
        requires
            old(self).wf(),
        ensures
            final(self).wf(),
            final(self).window_len() == old(self).window_len(),
            final(self).history() == old(self).history().push(input.low_of()),
            is_min_of(r, last_n(final(self).history(), final(self).window_len())),
            r == seq_min(last_n(final(self).history(), final(self).window_len())),
    {
        self.next(input.low())
    }

    /// Forgets every input.
    pub fn reset(&mut self)
        requires
            old(self).wf(),
        ensures
            final(self).wf(),
            final(self).window_len() == old(self).window_len(),
            final(self).history() == Seq::<Fixed>::empty(),
    {
        let n = self.vec.len();
        let mut i: usize = 0;
        while i < n
            invariant
                n == self.vec.len(),
                i <= n,
                forall|j: int| 0 <= j < i ==> self.vec@[j] is None,
            decreases n - i,
        {
            self.vec[i] = None;
            i = i + 1;
        }
        self.min_index = 0;
        self.cur_index = 0;
        self.history = Ghost(Seq::empty());
    }

    /// The indicator's name and configuration.
    pub fn to_string(&self) -> (r: String)
        requires
            self.wf(),
        ensures
            r@ == "MIN"@ + seq!['('] + decimal(self.window_len() as nat) + seq![')'],
    {
        label1("MIN", self.vec.len() as u32)
    }
}

impl Reset for Minimum {
    open spec fn valid(&self) -> bool {
        self.wf()
    }

    fn reset(&mut self) {
        Minimum::reset(self)
    }
}

impl Next<Fixed> for Minimum {
    type Output = Fixed;

    fn next(&mut self, input: Fixed) -> (r: Fixed) {
        Minimum::next(self, input)
    }
}

impl<'a, B: Low> Next<&'a B> for Minimum {
    type Output = Fixed;

    fn next(&mut self, input: &'a B) -> (r: Fixed) {
        Minimum::next_bar(self, input)
    }
}

impl Default for Minimum {
    fn default() -> (r: Self)
        ensures
            r.wf() && r.window_len() == 14 && r.history() == Seq::<Fixed>::empty(),
    {
        match Minimum::new(14) {
            Ok(x) => x,
            Err(_) => unreached(),
        }
    }
}

} // verus!

use crate::errors::Error;
use crate::fixed::Fixed;
use crate::traits::High;
use crate::window::{
    age_of, is_max_of, last_n, lemma_max_unique, seq_max, lemma_ring_push, lemma_ring_window, next_slot, ring_holds, slot_of,
};
use crate::label::{decimal, label1};
use crate::traits::{Next, Reset};
use vstd::prelude::*;

verus! {

/// Returns the highest value of the last `n` inputs.
///
/// The inputs sit in a ring of `n` slots; the slot of the current maximum is
/// kept, and the ring is only scanned again when that slot is overwritten.
pub struct Maximum {
    vec: Vec<Option<Fixed>>,
    max_index: usize,
    cur_index: usize,
    history: Ghost<Seq<Fixed>>,
}

/// The filled slot `mi` holds a value no smaller than any other filled slot.
pub open spec fn slot_is_max(v: Seq<Option<Fixed>>, mi: int) -> bool {
    &&& 0 <= mi < v.len()
    &&& v[mi] is Some
    &&& forall|j: int| 0 <= j < v.len() && (#[trigger] v[j]) is Some ==> v[mi]->0.raw >= v[j]->0.raw
}

proof fn lemma_slot_max_is_window_max(v: Seq<Option<Fixed>>, hist: Seq<Fixed>, cur: int, mi: int)
    requires
        ring_holds(v, hist, cur),
        slot_is_max(v, mi),
    ensures
        is_max_of(v[mi]->0, last_n(hist, v.len())),
{
    lemma_ring_window(v, hist, cur);
    let n = v.len() as int;
    let w = last_n(hist, v.len());
    let i0 = w.len() - 1 - age_of(cur, n, mi);
    assert(w[i0] == v[mi]->0);
    assert forall|i: int| 0 <= i < w.len() implies v[mi]->0.raw >= #[trigger] w[i].raw by {
        let j = slot_of(cur, n, w.len() - 1 - i);
        assert(v[j] == Some(w[i]));
    }
}

impl Maximum {
    /// Number of inputs the window spans.
    pub closed spec fn window_len(&self) -> nat {
        self.vec@.len()
    }

    /// Every input fed since construction or the last reset.
    pub closed spec fn history(&self) -> Seq<Fixed> {
        self.history@
    }

    pub closed spec fn wf(&self) -> bool {
        &&& ring_holds(self.vec@, self.history@, self.cur_index as int)
        &&& self.vec@.len() <= u32::MAX
        &&& 0 <= self.max_index < self.vec@.len()
        &&& self.history@.len() > 0 ==> slot_is_max(self.vec@, self.max_index as int)
    }

    /// Fails with `InvalidParameter` when `n` is zero.
    pub fn new(n: u32) -> (r: Result<Self, Error>)
        ensures
            n == 0 <==> r is Err,
            r matches Err(e) ==> e == Error::InvalidParameter,
            r matches Ok(m) ==> m.wf() && m.window_len() == n && m.history() == Seq::<Fixed>::empty(),
    {
        let n = n as usize;
        if n == 0 {
            return Err(Error::InvalidParameter);
        }
        let mut vec: Vec<Option<Fixed>> = Vec::new();
        while vec.len() < n
            invariant
                vec.len() <= n,
                forall|j: int| 0 <= j < vec.len() ==> vec@[j] is None,
            decreases n - vec.len(),
        {
            vec.push(None);
        }
        Ok(Maximum { vec, max_index: 0, cur_index: 0, history: Ghost(Seq::empty()) })
    }

    /// The first filled slot holding the largest value, or `None` when
    /// every slot is empty.
    fn find_max_index(&self) -> (r: Option<usize>)
        ensures
            r is None <==> forall|j: int| 0 <= j < self.vec@.len() ==> self.vec@[j] is None,
            r matches Some(i) ==> slot_is_max(self.vec@, i as int) && forall|j: int|
                0 <= j < i && (#[trigger] self.vec@[j]) is Some ==> self.vec@[j]->0.raw < self.vec@[i as int]->0.raw,
    {
        let mut max_value: Option<Fixed> = None;
        let mut max_index: Option<usize> = None;
        let mut i: usize = 0;
        while i < self.vec.len()
            invariant
                i <= self.vec.len(),
                max_index is None ==> max_value is None,
                max_index is None ==> forall|j: int| 0 <= j < i ==> self.vec@[j] is None,
                max_index matches Some(mi) ==> mi < i && max_value is Some && self.vec@[mi as int]
                    == max_value && (forall|j: int|
                    0 <= j < i && (#[trigger] self.vec@[j]) is Some ==> max_value->0.raw
                        >= self.vec@[j]->0.raw) && (forall|j: int|
                    0 <= j < mi && (#[trigger] self.vec@[j]) is Some ==> self.vec@[j]->0.raw
                        < max_value->0.raw),
            decreases self.vec.len() - i,
        {
            if let Some(value) = self.vec[i] {
                match max_value {
                    Some(m) => {
                        if value.raw > m.raw {
                            max_index = Some(i);
                            max_value = Some(value);
                        }
                    },
                    None => {
                        max_index = Some(i);
                        max_value = Some(value);
                    },
                }
            }
            i = i + 1;
        }
        max_index
    }

    /// Feeds one input; returns the maximum of the last `n` inputs.
    pub fn next(&mut self, input: Fixed) -> (r: Fixed)
        requires
            old(self).wf(),
        ensures
            final(self).wf(),
            final(self).window_len() == old(self).window_len(),
            final(self).history() == old(self).history().push(input),
            is_max_of(r, last_n(final(self).history(), final(self).window_len())),
            r == seq_max(last_n(final(self).history(), final(self).window_len())),
    {
        proof {
            lemma_ring_push(self.vec@, self.history@, self.cur_index as int, input);
        }
        let n = self.vec.len();
        self.cur_index = if self.cur_index + 1 == n { 0 } else { self.cur_index + 1 };
        self.vec[self.cur_index] = Some(input);
        self.history = Ghost(self.history@.push(input));
        if self.max_index != self.cur_index && self.vec[self.max_index].is_some() {
            let m = self.vec[self.max_index].unwrap();
            if input.raw > m.raw {
                self.max_index = self.cur_index;
            }
        } else {
            assert(self.vec@[self.cur_index as int] is Some);
            self.max_index = match self.find_max_index() {
                Some(i) => i,
                None => self.cur_index,
            };
        }
        proof {
            lemma_slot_max_is_window_max(self.vec@, self.history@, self.cur_index as int, self.max_index as int);
        }
        let r = self.vec[self.max_index].unwrap();
        proof {
            lemma_max_unique(r, last_n(self.history@, self.vec@.len()));
        }
        r
    }

    /// Feeds the high of a bar.
    pub fn next_bar<B: High>(&mut self, input: &B) -> (r: Fixed)
        requires
            old(self).wf(),
        ensures
            final(self).wf(),
            final(self).window_len() == old(self).window_len(),
            final(self).history() == old(self).history().push(input.high_of()),
            is_max_of(r, last_n(final(self).history(), final(self).window_len())),
            r == seq_max(last_n(final(self).history(), final(self).window_len())),
    {
        self.next(input.high())
    }

    /// Forgets every input.
    pub fn reset(&mut self)
        requires
            old(self).wf(),
        ensures
            final(self).wf(),
            final(self).window_len() == old(self).window_len(),
            final(self).history() == Seq::<Fixed>::empty(),
    {
        let n = self.vec.len();
        let mut i: usize = 0;
        while i < n
            invariant
                n == self.vec.len(),
                i <= n,
                forall|j: int| 0 <= j < i ==> self.vec@[j] is None,
            decreases n - i,
        {
            self.vec[i] = None;
            i = i + 1;
        }
        self.max_index = 0;
        self.cur_index = 0;
        self.history = Ghost(Seq::empty());
    }

    /// The indicator's name and configuration.
    pub fn to_string(&self) -> (r: String)
        requires
            self.wf(),
        ensures
            r@ == "MAX"@ + seq!['('] + decimal(self.window_len() as nat) + seq![')'],
    {
        label1("MAX", self.vec.len() as u32)
    }
}

impl Reset for Maximum {
    open spec fn valid(&self) -> bool {
        self.wf()
    }

    fn reset(&mut self) {
        Maximum::reset(self)
    }
}

impl Next<Fixed> for Maximum {
    type Output = Fixed;

    fn next(&mut self, input: Fixed) -> (r: Fixed) {
        Maximum::next(self, input)
    }
}

impl<'a, B: High> Next<&'a B> for Maximum {
    type Output = Fixed;

    fn next(&mut self, input: &'a B) -> (r: Fixed) {
        Maximum::next_bar(self, input)
    }
}

impl Default for Maximum {
    fn default() -> (r: Self)
        ensures
            r.wf() && r.window_len() == 14 && r.history() == Seq::<Fixed>::empty(),
    {
        match Maximum::new(14) {
            Ok(x) => x,
            Err(_) => unreached(),
        }
    }
}

} // verus!

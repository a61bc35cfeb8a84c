use crate::errors::Error;
use crate::fixed::{abs_int, div_round, fx, ratio, Fixed};
use crate::traits::{Close, Next, Reset};
use crate::window::{evicted, last_n, ValueRing};
use crate::label::{decimal, label1};
use vstd::prelude::*;

verus! {

/// Sum of the raw values of `s`.
pub open spec fn sum_raw(s: Seq<Fixed>) -> int
    decreases s.len(),
{
    if s.len() == 0 {
        0
    } else {
        sum_raw(s.drop_last()) + s.last().raw
    }
}

/// Mean of a non-empty sequence, rounded to the nearest raw unit.
pub open spec fn mean_of(s: Seq<Fixed>) -> Fixed {
    fx(div_round(sum_raw(s), s.len() as int))
}

proof fn lemma_sum_drop_first(s: Seq<Fixed>)
    requires
        s.len() >= 1,
    ensures
        sum_raw(s) == s[0].raw + sum_raw(s.drop_first()),
    decreases s.len(),
{
    if s.len() > 1 {
        lemma_sum_drop_first(s.drop_last());
        assert(s.drop_first().drop_last() =~= s.drop_last().drop_first());
    } else {
        assert(s.drop_last() =~= Seq::<Fixed>::empty());
        assert(s.drop_first() =~= Seq::<Fixed>::empty());
    }
}

proof fn lemma_sum_bound(s: Seq<Fixed>)
    ensures
        -(s.len() * 0x8000_0000_0000_0000) <= sum_raw(s) <= s.len() * 0x8000_0000_0000_0000,
    decreases s.len(),
{
    if s.len() > 0 {
        lemma_sum_bound(s.drop_last());
    }
}

/// Sliding the window by one input changes its sum by what came in less
/// what left.
proof fn lemma_window_sum_push(hist: Seq<Fixed>, n: nat, x: Fixed)
    requires
        n >= 1,
    ensures
        sum_raw(last_n(hist.push(x), n)) == sum_raw(last_n(hist, n)) - evicted(hist, n as int).raw
            + x.raw,
{
    let h2 = hist.push(x);
    assert(h2.drop_last() =~= hist);
    if hist.len() >= n {
        let w = last_n(hist, n);
        let w2 = last_n(h2, n);
        lemma_sum_drop_first(w);
        assert(w2.drop_last() =~= w.drop_first());
    } else {
        assert(last_n(h2, n).drop_last() =~= last_n(hist, n));
    }
}

/// Simple moving average: the mean of the last `n` inputs, or of all of
/// them while fewer than `n` arrived.
pub struct SimpleMovingAverage {
    n: u32,
    count: u32,
    sum: i128,
    ring: ValueRing,
}

impl SimpleMovingAverage {
    pub closed spec fn window_len(&self) -> nat {
        self.n as nat
    }

    /// Every input fed since construction or the last reset.
    pub closed spec fn history(&self) -> Seq<Fixed> {
        self.ring.history()
    }

    pub closed spec fn wf(&self) -> bool {
        &&& self.ring.wf()
        &&& self.ring.size() == self.n
        &&& self.n >= 1
        &&& self.count == last_n(self.ring.history(), self.n as nat).len()
        &&& self.sum == sum_raw(last_n(self.ring.history(), self.n as nat))
    }

    /// Fails with `InvalidParameter` when `n` is zero.
    pub fn new(n: u32) -> (r: Result<Self, Error>)
        ensures
            n == 0 <==> r is Err,
            r matches Err(e) ==> e == Error::InvalidParameter,
            r matches Ok(s) ==> s.wf() && s.window_len() == n && s.history() == Seq::<Fixed>::empty(),
    {
        if n == 0 {
            return Err(Error::InvalidParameter);
        }
        let ring = ValueRing::new(n as usize);
        Ok(SimpleMovingAverage { n, count: 0, sum: 0, ring })
    }

    /// Feeds one input; returns the mean of the last `n` inputs.
    pub fn next(&mut self, input: Fixed) -> (r: Fixed)
        requires
            old(self).wf(),
        ensures
            final(self).wf(),
            final(self).window_len() == old(self).window_len(),
            final(self).history() == old(self).history().push(input),
            r == mean_of(last_n(final(self).history(), final(self).window_len())),
            old(self).history().len() == 0 ==> r == input,
    {
        let ghost hist = self.ring.history();
        let old_val = self.ring.push(input);
        if self.count < self.n {
            self.count = self.count + 1;
        }
        proof {
            lemma_window_sum_push(hist, self.n as nat, input);
            lemma_sum_bound(last_n(hist, self.n as nat));
            lemma_sum_bound(last_n(self.ring.history(), self.n as nat));
            if hist.len() == 0 {
                let w = last_n(self.ring.history(), self.n as nat);
                assert(w =~= seq![input]);
                assert(w.drop_last() =~= Seq::<Fixed>::empty());
                assert(sum_raw(w) == input.raw);
                let a = abs_int(input.raw as int);
                assert((2 * a + 1) / 2 == a) by (nonlinear_arith)
                    requires
                        a >= 0,
                ;
                assert(div_round(input.raw as int, 1) == input.raw);
            }
        }
        self.sum = self.sum - old_val.raw as i128 + input.raw as i128;
        ratio(self.sum, self.count as i128)
    }

    /// Feeds the close of a bar.
    pub fn next_bar<B: Close>(&mut self, input: &B) -> (r: Fixed)
        requires
            old(self).wf(),
        ensures
            final(self).wf(),
            final(self).window_len() == old(self).window_len(),
            final(self).history() == old(self).history().push(input.close_of()),
            r == mean_of(last_n(final(self).history(), final(self).window_len())),
    {
        self.next(input.close())
    }

    /// Forgets every input.
    pub fn reset(&mut self)
        requires
            old(self).wf(),
        ensures
            final(self).wf(),
            final(self).window_len() == old(self).window_len(),
            final(self).history() == Seq::<Fixed>::empty(),
    {
        self.count = 0;
        self.sum = 0;
        self.ring.clear();
    }

    /// The indicator's name and configuration.
    pub fn to_string(&self) -> (r: String)
        ensures
            r@ == "SMA"@ + seq!['('] + decimal(self.window_len() as nat) + seq![')'],
    {
        label1("SMA", self.n)
    }
}

impl Reset for SimpleMovingAverage {
    open spec fn valid(&self) -> bool {
        self.wf()
    }

    fn reset(&mut self) {
        SimpleMovingAverage::reset(self)
    }
}

impl Next<Fixed> for SimpleMovingAverage {
    type Output = Fixed;

    fn next(&mut self, input: Fixed) -> (r: Fixed) {
        SimpleMovingAverage::next(self, input)
    }
}

impl<'a, B: Close> Next<&'a B> for SimpleMovingAverage {
    type Output = Fixed;

    fn next(&mut self, input: &'a B) -> (r: Fixed) {
        SimpleMovingAverage::next_bar(self, input)
    }
}

impl Default for SimpleMovingAverage {
    fn default() -> (r: Self)
        ensures
            r.wf() && r.window_len() == 9 && r.history() == Seq::<Fixed>::empty(),
    {
        match SimpleMovingAverage::new(9) {
            Ok(x) => x,
            Err(_) => unreached(),
        }
    }
}

} // verus!

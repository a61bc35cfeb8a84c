use crate::errors::Error;
use crate::fixed::{
    fx_add, fx_div, fx_int, fx_mul, fx_sub, lemma_div_round_exact, lemma_nonneg_ops, Fixed, SCALE,
};
use crate::traits::Close;
use crate::window::{evicted, last_n, ValueRing};
use crate::label::{decimal, label1};
use crate::traits::{Next, Reset};
use vstd::prelude::*;

verus! {

/// Heron's method, `a' = 1/2 * (a + v / a)`, run for `ttl` rounds from
/// `seed`; a zero seed gives zero.
pub open spec fn heron(seed: Fixed, v: Fixed, ttl: nat) -> Fixed
    decreases ttl,
{
    if ttl == 0 {
        seed
    } else if seed.raw == 0 {
        fx_int(0)
    } else {
        heron(
            fx_mul(fx_div(fx_int(1), fx_int(2)), fx_add(seed, fx_div(v, seed))),
            v,
            (ttl - 1) as nat,
        )
    }
}

/// From a non-negative seed and value, Heron's method stays non-negative.
pub proof fn lemma_heron_nonneg(seed: Fixed, v: Fixed, ttl: nat)
    requires
        seed.raw >= 0,
        v.raw >= 0,
    ensures
        heron(seed, v, ttl).raw >= 0,
    decreases ttl,
{
    if ttl > 0 && seed.raw != 0 {
        lemma_half();
        lemma_nonneg_ops(v, seed);
        lemma_nonneg_ops(seed, fx_div(v, seed));
        lemma_nonneg_ops(fx_div(fx_int(1), fx_int(2)), fx_add(seed, fx_div(v, seed)));
        lemma_heron_nonneg(
            fx_mul(fx_div(fx_int(1), fx_int(2)), fx_add(seed, fx_div(v, seed))),
            v,
            (ttl - 1) as nat,
        );
    }
}

proof fn lemma_half()
    ensures
        fx_div(fx_int(1), fx_int(2)).raw == SCALE / 2,
{
    assert(1_000_000_000int * 1_000_000_000int == 500_000_000int * 2_000_000_000int) by (nonlinear_arith);
    lemma_div_round_exact(SCALE / 2, 2 * SCALE as int);
}

/// Rounds of Heron's method behind every square root.
pub const TTL: usize = 32;

/// The square root as the indicator computes it.
pub open spec fn sqrt_spec(v: Fixed) -> Fixed {
    heron(v, v, TTL as nat)
}

fn find_square_root(seed: Fixed, v: Fixed, ttl: usize) -> (r: Fixed)
    ensures
        r == heron(seed, v, ttl as nat),
    decreases ttl,
{
    if ttl == 0 {
        seed
    } else if seed.raw == 0 {
        Fixed::zero()
    } else {
        find_square_root(
            Fixed::one().div(Fixed::from_u32(2)).mul(seed.add(v.div(seed))),
            v,
            ttl - 1,
        )
    }
}

fn sqrt(v: Fixed) -> (r: Fixed)
    ensures
        r == sqrt_spec(v),
{
    find_square_root(v, v, TTL)
}

/// Mean and sum of squared deviations after one more input, by Welford's
/// update while the window fills (`count` is the new count) and by the
/// remove-oldest, add-newest update once it is full.
pub open spec fn welford(
    filling: bool,
    count: int,
    n: int,
    m: Fixed,
    m2: Fixed,
    input: Fixed,
    old_val: Fixed,
) -> (Fixed, Fixed) {
    if filling {
        let delta = fx_sub(input, m);
        let m_new = fx_add(m, fx_div(delta, fx_int(count)));
        (m_new, fx_add(m2, fx_mul(delta, fx_sub(input, m_new))))
    } else {
        let delta = fx_sub(input, old_val);
        let m_new = fx_add(m, fx_div(delta, fx_int(n)));
        let delta2 = fx_sub(fx_add(fx_sub(input, m_new), old_val), m);
        (m_new, fx_add(m2, fx_mul(delta, delta2)))
    }
}

/// Population standard deviation of the last `n` inputs.
pub struct StandardDeviation {
    n: u32,
    count: u32,
    m: Fixed,
    m2: Fixed,
    ring: ValueRing,
}

impl StandardDeviation {
    pub closed spec fn window_len(&self) -> nat {
        self.n as nat
    }

    /// Every input fed since construction or the last reset.
    pub closed spec fn history(&self) -> Seq<Fixed> {
        self.ring.history()
    }

    /// Inputs in the window.
    pub closed spec fn count(&self) -> nat {
        self.count as nat
    }

    pub closed spec fn mean_spec(&self) -> Fixed {
        self.m
    }

    /// Running sum of squared deviations from the mean.
    pub closed spec fn m2_spec(&self) -> Fixed {
        self.m2
    }

    pub closed spec fn wf(&self) -> bool {
        &&& self.ring.wf()
        &&& self.ring.size() == self.n
        &&& self.n >= 1
        &&& self.count == last_n(self.ring.history(), self.n as nat).len()
        &&& self.count == 0 ==> self.m == fx_int(0) && self.m2 == fx_int(0)
    }

    /// Fails with `InvalidParameter` when `n` is zero.
    pub fn new(n: u32) -> (r: Result<Self, Error>)
        ensures
            n == 0 <==> r is Err,
            r matches Err(e) ==> e == Error::InvalidParameter,
            r matches Ok(s) ==> s.wf() && s.window_len() == n && s.history() == Seq::<Fixed>::empty()
                && s.count() == 0 && s.mean_spec() == fx_int(0) && s.m2_spec() == fx_int(0),
    {
        if n == 0 {
            return Err(Error::InvalidParameter);
        }
        let ring = ValueRing::new(n as usize);
        Ok(StandardDeviation { n, count: 0, m: Fixed::zero(), m2: Fixed::zero(), ring })
    }

    /// Mean of the window.
    pub fn mean(&self) -> (r: Fixed)
        ensures
            r == self.mean_spec(),
    {
        self.m
    }

    /// Feeds one input; returns `sqrt(m2 / count)`.
    pub fn next(&mut self, input: Fixed) -> (r: Fixed)
        requires
            old(self).wf(),
        ensures
            final(self).wf(),
            final(self).window_len() == old(self).window_len(),
            final(self).history() == old(self).history().push(input),
            final(self).count() == last_n(final(self).history(), final(self).window_len()).len(),
            (final(self).mean_spec(), final(self).m2_spec()) == welford(
                old(self).count() < old(self).window_len(),
                final(self).count() as int,
                old(self).window_len() as int,
                old(self).mean_spec(),
                old(self).m2_spec(),
                input,
                evicted(old(self).history(), old(self).window_len() as int),
            ),
            r == sqrt_spec(fx_div(final(self).m2_spec(), fx_int(final(self).count() as int))),
            final(self).m2_spec().raw >= 0 ==> r.raw >= 0,
            old(self).count() == 0 ==> final(self).mean_spec() == input && final(self).m2_spec() == fx_int(0)
                && r == fx_int(0),
    {
        let ghost was_empty = self.count == 0;
        let old_val = self.ring.push(input);
        if self.count < self.n {
            self.count = self.count + 1;
            let delta = input.sub(self.m);
            self.m = self.m.add(delta.div(Fixed::from_u32(self.count)));
            let delta2 = input.sub(self.m);
            self.m2 = self.m2.add(delta.mul(delta2));
        } else {
            let delta = input.sub(old_val);
            let old_m = self.m;
            self.m = self.m.add(delta.div(Fixed::from_u32(self.n)));
            let delta2 = input.sub(self.m).add(old_val).sub(old_m);
            self.m2 = self.m2.add(delta.mul(delta2));
        }
        proof {
            if self.m2.raw >= 0 {
                lemma_nonneg_ops(self.m2, fx_int(self.count as int));
                lemma_heron_nonneg(fx_div(self.m2, fx_int(self.count as int)), fx_div(self.m2, fx_int(self.count as int)), TTL as nat);
            }
            if was_empty {
                lemma_div_round_exact(input.raw as int, SCALE as int);
                lemma_div_round_exact(0, SCALE as int);
                assert(fx_div(fx_sub(input, fx_int(0)), fx_int(1)) == input);
                assert(fx_mul(input, fx_int(0)) == fx_int(0));
                assert(fx_div(fx_int(0), fx_int(1)) == fx_int(0));
            }
        }
        sqrt(self.m2.div(Fixed::from_u32(self.count)))
    }

    /// Feeds the close of a bar.
    pub fn next_bar<B: Close>(&mut self, input: &B) -> (r: Fixed)
        requires
            old(self).wf(),
        ensures
            final(self).wf(),
            final(self).window_len() == old(self).window_len(),
            final(self).history() == old(self).history().push(input.close_of()),
            final(self).count() == last_n(final(self).history(), final(self).window_len()).len(),
            (final(self).mean_spec(), final(self).m2_spec()) == welford(
                old(self).count() < old(self).window_len(),
                final(self).count() as int,
                old(self).window_len() as int,
                old(self).mean_spec(),
                old(self).m2_spec(),
                input.close_of(),
                evicted(old(self).history(), old(self).window_len() as int),
            ),
            r == sqrt_spec(fx_div(final(self).m2_spec(), fx_int(final(self).count() as int))),
            final(self).m2_spec().raw >= 0 ==> r.raw >= 0,
            old(self).count() == 0 ==> final(self).mean_spec() == input.close_of()
                && final(self).m2_spec() == fx_int(0) && r == fx_int(0),
    {
        self.next(input.close())
    }

    /// Forgets every input.
    pub fn reset(&mut self)
        requires
            old(self).wf(),
        ensures
            final(self).wf(),
            final(self).window_len() == old(self).window_len(),
            final(self).history() == Seq::<Fixed>::empty(),
            final(self).count() == 0,
            final(self).mean_spec() == fx_int(0),
            final(self).m2_spec() == fx_int(0),
    {
        self.count = 0;
        self.m = Fixed::zero();
        self.m2 = Fixed::zero();
        self.ring.clear();
    }

    /// The indicator's name and configuration.
    pub fn to_string(&self) -> (r: String)
        ensures
            r@ == "SD"@ + seq!['('] + decimal(self.window_len() as nat) + seq![')'],
    {
        label1("SD", self.n)
    }
}

impl Reset for StandardDeviation {
    open spec fn valid(&self) -> bool {
        self.wf()
    }

    fn reset(&mut self) {
        StandardDeviation::reset(self)
    }
}

impl Next<Fixed> for StandardDeviation {
    type Output = Fixed;

    fn next(&mut self, input: Fixed) -> (r: Fixed) {
        StandardDeviation::next(self, input)
    }
}

impl<'a, B: Close> Next<&'a B> for StandardDeviation {
    type Output = Fixed;

    fn next(&mut self, input: &'a B) -> (r: Fixed) {
        StandardDeviation::next_bar(self, input)
    }
}

impl Default for StandardDeviation {
    fn default() -> (r: Self)
        ensures
            r.wf() && r.window_len() == 9 && r.history() == Seq::<Fixed>::empty() && r.count() == 0 && r.mean_spec() == fx_int(0) && r.m2_spec() == fx_int(0),
    {
        match StandardDeviation::new(9) {
            Ok(x) => x,
            Err(_) => unreached(),
        }
    }
}

} // verus!

use crate::errors::Error;
use crate::fixed::{
    div_round, fx_add, fx_div, fx_int, fx_mul, fx_sub, lemma_div_round_exact, lemma_div_round_le,
    lemma_div_round_nonneg, Fixed, SCALE,
};
use crate::indicators::exponential_moving_average::{
    ema_advanced, ema_fresh, ema_k, lemma_ema_k_unit, lemma_ema_step_nonneg, ExponentialMovingAverage as Ema,
};
use crate::traits::Close;
use crate::label::{decimal, label1};
use crate::traits::{Next, Reset};
use vstd::prelude::*;

verus! {

/// Raw value of the seed fed to both averages on the first input: 0.1.
pub const RSI_SEED: i64 = 100_000_000;

/// The upward and downward moves fed to the averages: both seeds at first,
/// then the rise or the fall since the previous input (a flat step is a
/// fall of zero).
pub open spec fn rsi_moves(is_new: bool, prev: Fixed, input: Fixed) -> (Fixed, Fixed) {
    if is_new {
        (Fixed { raw: RSI_SEED }, Fixed { raw: RSI_SEED })
    } else if input.raw > prev.raw {
        (fx_sub(input, prev), fx_int(0))
    } else {
        (fx_int(0), fx_sub(prev, input))
    }
}

/// `100 * up / (up + down)`, or 50 when the sum is zero.
pub open spec fn rsi_value(up: Fixed, down: Fixed) -> Fixed {
    if fx_add(up, down).raw == 0 {
        fx_int(50)
    } else {
        fx_div(fx_mul(fx_int(100), up), fx_add(up, down))
    }
}

/// From non-negative averages the index lies between 0 and 100.
pub proof fn lemma_rsi_value_range(up: Fixed, down: Fixed)
    requires
        up.raw >= 0,
        down.raw >= 0,
    ensures
        0 <= rsi_value(up, down).raw <= 100 * SCALE,
{
    let sum = fx_add(up, down);
    if sum.raw != 0 {
        let s = SCALE as int;
        assert(fx_int(100).raw == 100 * s);
        assert(100 * s * up.raw == (100 * up.raw) * s) by (nonlinear_arith);
        lemma_div_round_exact(100 * up.raw, s);
        let a = fx_mul(fx_int(100), up);
        assert(0 <= a.raw <= 100 * up.raw);
        assert(up.raw <= sum.raw);
        assert(0 <= a.raw * s <= (100 * s) * sum.raw) by (nonlinear_arith)
            requires
                0 <= a.raw <= 100 * up.raw,
                up.raw <= sum.raw,
                s > 0,
        ;
        lemma_div_round_nonneg(a.raw * s, sum.raw as int);
        lemma_div_round_le(a.raw * s, sum.raw as int, 100 * s);
    }
}

/// Relative strength index over EMAs of the upward and downward moves.
pub struct RelativeStrengthIndex {
    n: u32,
    up_ema_indicator: Ema,
    down_ema_indicator: Ema,
    prev_val: Fixed,
    is_new: bool,
}

impl RelativeStrengthIndex {
    pub closed spec fn length_spec(&self) -> u32 {
        self.n
    }

    pub closed spec fn up(&self) -> Ema {
        self.up_ema_indicator
    }

    pub closed spec fn down(&self) -> Ema {
        self.down_ema_indicator
    }

    pub closed spec fn prev(&self) -> Fixed {
        self.prev_val
    }

    /// No input arrived since construction or the last reset.
    pub closed spec fn is_new_spec(&self) -> bool {
        self.is_new
    }

    pub closed spec fn wf(&self) -> bool {
        &&& self.n >= 1
        &&& self.up_ema_indicator.wf()
        &&& self.down_ema_indicator.wf()
        &&& self.up_ema_indicator.length_spec() == self.n
        &&& self.down_ema_indicator.length_spec() == self.n
        &&& self.up_ema_indicator.current_spec().raw >= 0
        &&& self.down_ema_indicator.current_spec().raw >= 0
    }

    /// `r` is as `new(n)` made it.
    pub open spec fn fresh(r: Self, n: u32) -> bool {
        &&& r.wf()
        &&& r.length_spec() == n
        &&& ema_fresh(r.up(), n)
        &&& ema_fresh(r.down(), n)
        &&& r.prev() == fx_int(0)
        &&& r.is_new_spec()
    }

    /// Fails with `InvalidParameter` when `n` is zero.
    pub fn new(n: u32) -> (r: Result<Self, Error>)
        ensures
            n == 0 <==> r is Err,
            r matches Err(e) ==> e == Error::InvalidParameter,
            r matches Ok(s) ==> Self::fresh(s, n),
    {
        let up = match Ema::new(n) {
            Ok(e) => e,
            Err(e) => return Err(e),
        };
        let down = match Ema::new(n) {
            Ok(e) => e,
            Err(e) => return Err(e),
        };
        Ok(RelativeStrengthIndex {
            n,
            up_ema_indicator: up,
            down_ema_indicator: down,
            prev_val: Fixed::zero(),
            is_new: true,
        })
    }

    pub fn length(&self) -> (r: u32)
        ensures
            r == self.length_spec(),
    {
        self.n
    }

    /// Feeds one input; returns the index, between 0 and 100.
    pub fn next(&mut self, input: Fixed) -> (r: Fixed)
        requires
            old(self).wf(),
        ensures
            final(self).wf(),
            final(self).length_spec() == old(self).length_spec(),
            final(self).prev() == input,
            !final(self).is_new_spec(),
            ema_advanced(
                old(self).up(),
                final(self).up(),
                rsi_moves(old(self).is_new_spec(), old(self).prev(), input).0,
                final(self).up().current_spec(),
            ),
            ema_advanced(
                old(self).down(),
                final(self).down(),
                rsi_moves(old(self).is_new_spec(), old(self).prev(), input).1,
                final(self).down().current_spec(),
            ),
            r == rsi_value(final(self).up().current_spec(), final(self).down().current_spec()),
            0 <= r.raw <= 100 * SCALE,
    {
        let mut up = Fixed::zero();
        let mut down = Fixed::zero();
        if self.is_new {
            self.is_new = false;
            up = Fixed::from_raw(RSI_SEED);
            down = Fixed::from_raw(RSI_SEED);
        } else {
            if input.raw > self.prev_val.raw {
                up = input.sub(self.prev_val);
            } else {
                down = self.prev_val.sub(input);
            }
        }
        self.prev_val = input;
        proof {
            lemma_ema_k_unit(self.n as int);
            lemma_ema_step_nonneg(ema_k(self.n as int), self.up_ema_indicator.current_spec(), self.up_ema_indicator.is_new_spec(), up);
            lemma_ema_step_nonneg(ema_k(self.n as int), self.down_ema_indicator.current_spec(), self.down_ema_indicator.is_new_spec(), down);
        }
        let up_ema = self.up_ema_indicator.next(up);
        let down_ema = self.down_ema_indicator.next(down);
        proof {
            lemma_rsi_value_range(up_ema, down_ema);
        }
        let sum = up_ema.add(down_ema);
        if sum.raw == 0 {
            Fixed::from_u32(50)
        } else {
            Fixed::from_u32(100).mul(up_ema).div(sum)
        }
    }

    /// Feeds the close of a bar.
    pub fn next_bar<B: Close>(&mut self, input: &B) -> (r: Fixed)
        requires
            old(self).wf(),
        ensures
            final(self).wf(),
            final(self).length_spec() == old(self).length_spec(),
            final(self).prev() == input.close_of(),
            !final(self).is_new_spec(),
            ema_advanced(
                old(self).up(),
                final(self).up(),
                rsi_moves(old(self).is_new_spec(), old(self).prev(), input.close_of()).0,
                final(self).up().current_spec(),
            ),
            ema_advanced(
                old(self).down(),
                final(self).down(),
                rsi_moves(old(self).is_new_spec(), old(self).prev(), input.close_of()).1,
                final(self).down().current_spec(),
            ),
            r == rsi_value(final(self).up().current_spec(), final(self).down().current_spec()),
            0 <= r.raw <= 100 * SCALE,
    {
        self.next(input.close())
    }

    /// Back to the state `new` gives.
    pub fn reset(&mut self)
        requires
            old(self).wf(),
        ensures
            Self::fresh(*final(self), old(self).length_spec()),
    {
        self.is_new = true;
        self.prev_val = Fixed::zero();
        self.up_ema_indicator.reset();
        self.down_ema_indicator.reset();
    }

    /// The indicator's name and configuration.
    pub fn to_string(&self) -> (r: String)
        ensures
            r@ == "RSI"@ + seq!['('] + decimal(self.length_spec() as nat) + seq![')'],
    {
        label1("RSI", self.n)
    }
}

impl Reset for RelativeStrengthIndex {
    open spec fn valid(&self) -> bool {
        self.wf()
    }

    fn reset(&mut self) {
        RelativeStrengthIndex::reset(self)
    }
}

impl Next<Fixed> for RelativeStrengthIndex {
    type Output = Fixed;

    fn next(&mut self, input: Fixed) -> (r: Fixed) {
        RelativeStrengthIndex::next(self, input)
    }
}

impl<'a, B: Close> Next<&'a B> for RelativeStrengthIndex {
    type Output = Fixed;

    fn next(&mut self, input: &'a B) -> (r: Fixed) {
        RelativeStrengthIndex::next_bar(self, input)
    }
}

impl Default for RelativeStrengthIndex {
    fn default() -> (r: Self)
        ensures
            Self::fresh(r, 14),
    {
        match RelativeStrengthIndex::new(14) {
            Ok(x) => x,
            Err(_) => unreached(),
        }
    }
}

} // verus!

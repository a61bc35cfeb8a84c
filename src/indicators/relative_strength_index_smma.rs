use crate::errors::Error;
use crate::fixed::{fx_int, fx_sub, Fixed, SCALE};
use crate::indicators::relative_strength_index::{lemma_rsi_value_range, rsi_value};
use crate::indicators::smoothed_or_modified_moving_average::{
    smma_advanced, smma_fresh, lemma_smma_step_nonneg, SmoothedOrModifiedMovingAverage as Smma,
};
use crate::traits::Close;
use crate::label::{decimal, label1};
use crate::traits::{Next, Reset};
use vstd::prelude::*;

verus! {

/// Raw seed of the upward average on the first input: 0.000000001.
pub const UP_SEED: i64 = 1;

/// Raw seed of the downward average on the first input: 0.00000001.
pub const DOWN_SEED: i64 = 10;

/// The upward and downward moves fed to the averages: the seeds at first,
/// then the rise or the fall since the previous input (a flat step feeds
/// zero to both).
pub open spec fn rsi_smma_moves(is_new: bool, prev: Fixed, input: Fixed) -> (Fixed, Fixed) {
    if is_new {
        (Fixed { raw: UP_SEED }, Fixed { raw: DOWN_SEED })
    } else if input.raw > prev.raw {
        (fx_sub(input, prev), fx_int(0))
    } else if input.raw < prev.raw {
        (fx_int(0), fx_sub(prev, input))
    } else {
        (fx_int(0), fx_int(0))
    }
}

/// Relative strength index over smoothed moving averages of the upward and
/// downward moves.
pub struct RelativeStrengthIndexSmma {
    n: u32,
    up_smma_indicator: Smma,
    down_smma_indicator: Smma,
    prev_val: Fixed,
    is_new: bool,
}

impl RelativeStrengthIndexSmma {
    pub closed spec fn length_spec(&self) -> u32 {
        self.n
    }

    pub closed spec fn up(&self) -> Smma {
        self.up_smma_indicator
    }

    pub closed spec fn down(&self) -> Smma {
        self.down_smma_indicator
    }

    pub closed spec fn prev(&self) -> Fixed {
        self.prev_val
    }

    /// No input arrived since construction or the last reset.
    pub closed spec fn is_new_spec(&self) -> bool {
        self.is_new
    }

    pub closed spec fn wf(&self) -> bool {
        &&& self.n >= 1
        &&& self.up_smma_indicator.wf()
        &&& self.down_smma_indicator.wf()
        &&& self.up_smma_indicator.length_spec() == self.n
        &&& self.down_smma_indicator.length_spec() == self.n
        &&& self.up_smma_indicator.current_spec().raw >= 0
        &&& self.down_smma_indicator.current_spec().raw >= 0
    }

    /// `r` is as `new(n)` made it.
    pub open spec fn fresh(r: Self, n: u32) -> bool {
        &&& r.wf()
        &&& r.length_spec() == n
        &&& smma_fresh(r.up(), n)
        &&& smma_fresh(r.down(), n)
        &&& r.prev() == fx_int(0)
        &&& r.is_new_spec()
    }

    /// Fails with `InvalidParameter` when `n` is zero.
    pub fn new(n: u32) -> (r: Result<Self, Error>)
        ensures
            n == 0 <==> r is Err,
            r matches Err(e) ==> e == Error::InvalidParameter,
            r matches Ok(s) ==> Self::fresh(s, n),
    {
        let up = match Smma::new(n) {
            Ok(e) => e,
            Err(e) => return Err(e),
        };
        let down = match Smma::new(n) {
            Ok(e) => e,
            Err(e) => return Err(e),
        };
        Ok(RelativeStrengthIndexSmma {
            n,
            up_smma_indicator: up,
            down_smma_indicator: down,
            prev_val: Fixed::zero(),
            is_new: true,
        })
    }

    pub fn length(&self) -> (r: u32)
        ensures
            r == self.length_spec(),
    {
        self.n
    }

    /// Feeds one input; returns the index, between 0 and 100.
    pub fn next(&mut self, input: Fixed) -> (r: Fixed)
        requires
            old(self).wf(),
        ensures
            final(self).wf(),
            final(self).length_spec() == old(self).length_spec(),
            final(self).prev() == input,
            !final(self).is_new_spec(),
            smma_advanced(
                old(self).up(),
                final(self).up(),
                rsi_smma_moves(old(self).is_new_spec(), old(self).prev(), input).0,
                final(self).up().current_spec(),
            ),
            smma_advanced(
                old(self).down(),
                final(self).down(),
                rsi_smma_moves(old(self).is_new_spec(), old(self).prev(), input).1,
                final(self).down().current_spec(),
            ),
            r == rsi_value(final(self).up().current_spec(), final(self).down().current_spec()),
            0 <= r.raw <= 100 * SCALE,
    {
        let mut up = Fixed::zero();
        let mut down = Fixed::zero();
        if self.is_new {
            self.is_new = false;
            up = Fixed::from_raw(UP_SEED);
            down = Fixed::from_raw(DOWN_SEED);
        } else {
            if input.raw > self.prev_val.raw {
                up = input.sub(self.prev_val);
            } else if input.raw < self.prev_val.raw {
                down = self.prev_val.sub(input);
            }
        }
        self.prev_val = input;
        proof {
            lemma_smma_step_nonneg(self.n as int, self.up_smma_indicator.current_spec(), self.up_smma_indicator.is_new_spec(), up);
            lemma_smma_step_nonneg(self.n as int, self.down_smma_indicator.current_spec(), self.down_smma_indicator.is_new_spec(), down);
        }
        let up_ema = self.up_smma_indicator.next(up);
        let down_ema = self.down_smma_indicator.next(down);
        proof {
            lemma_rsi_value_range(up_ema, down_ema);
        }
        let sum = up_ema.add(down_ema);
        if sum.raw == 0 {
            Fixed::from_u32(50)
        } else {
            Fixed::from_u32(100).mul(up_ema).div(sum)
        }
    }

    /// Feeds the close of a bar.
    pub fn next_bar<B: Close>(&mut self, input: &B) -> (r: Fixed)
        requires
            old(self).wf(),
        ensures
            final(self).wf(),
            final(self).length_spec() == old(self).length_spec(),
            final(self).prev() == input.close_of(),
            !final(self).is_new_spec(),
            smma_advanced(
                old(self).up(),
                final(self).up(),
                rsi_smma_moves(old(self).is_new_spec(), old(self).prev(), input.close_of()).0,
                final(self).up().current_spec(),
            ),
            smma_advanced(
                old(self).down(),
                final(self).down(),
                rsi_smma_moves(old(self).is_new_spec(), old(self).prev(), input.close_of()).1,
                final(self).down().current_spec(),
            ),
            r == rsi_value(final(self).up().current_spec(), final(self).down().current_spec()),
            0 <= r.raw <= 100 * SCALE,
    {
        self.next(input.close())
    }

    /// Back to the state `new` gives.
    pub fn reset(&mut self)
        requires
            old(self).wf(),
        ensures
            Self::fresh(*final(self), old(self).length_spec()),
    {
        self.is_new = true;
        self.prev_val = Fixed::zero();
        self.up_smma_indicator.reset();
        self.down_smma_indicator.reset();
    }

    /// The indicator's name and configuration.
    pub fn to_string(&self) -> (r: String)
        ensures
            r@ == "RSI"@ + seq!['('] + decimal(self.length_spec() as nat) + seq![')'],
    {
        label1("RSI", self.n)
    }
}

impl Reset for RelativeStrengthIndexSmma {
    open spec fn valid(&self) -> bool {
        self.wf()
    }

    fn reset(&mut self) {
        RelativeStrengthIndexSmma::reset(self)
    }
}

impl Next<Fixed> for RelativeStrengthIndexSmma {
    type Output = Fixed;

    fn next(&mut self, input: Fixed) -> (r: Fixed) {
        RelativeStrengthIndexSmma::next(self, input)
    }
}

impl<'a, B: Close> Next<&'a B> for RelativeStrengthIndexSmma {
    type Output = Fixed;

    fn next(&mut self, input: &'a B) -> (r: Fixed) {
        RelativeStrengthIndexSmma::next_bar(self, input)
    }
}

impl Default for RelativeStrengthIndexSmma {
    fn default() -> (r: Self)
        ensures
            Self::fresh(r, 14),
    {
        match RelativeStrengthIndexSmma::new(14) {
            Ok(x) => x,
            Err(_) => unreached(),
        }
    }
}

} // verus!

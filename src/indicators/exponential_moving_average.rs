use crate::errors::Error;
use crate::fixed::{
    fx_add, fx_div, fx_int, fx_mul, fx_sub, lemma_div_round_le, lemma_div_round_nonneg, lemma_nonneg_ops,
    Fixed, SCALE,
};
use crate::traits::Close;
use crate::label::{decimal, label1};
use crate::traits::{Next, Reset};
use vstd::prelude::*;

verus! {

/// The smoothing factor `2 / (length + 1)`.
pub open spec fn ema_k(length: int) -> Fixed {
    fx_div(fx_int(2), fx_add(fx_int(length), fx_int(1)))
}

/// The next value: the first input as it is, then `k * input + (1 - k) * current`.
pub open spec fn ema_step(k: Fixed, current: Fixed, is_new: bool, input: Fixed) -> Fixed {
    if is_new {
        input
    } else {
        fx_add(fx_mul(k, input), fx_mul(fx_sub(fx_int(1), k), current))
    }
}

/// The smoothing factor lies between zero and one.
pub proof fn lemma_ema_k_unit(length: int)
    requires
        1 <= length <= u32::MAX,
    ensures
        0 <= ema_k(length).raw <= SCALE,
{
    let s = SCALE as int;
    assert(0 <= length * s <= 4294967295 * 1_000_000_000) by (nonlinear_arith)
        requires
            1 <= length <= 4294967295,
            s == 1_000_000_000,
    ;
    assert(fx_add(fx_int(length), fx_int(1)).raw == (length + 1) * s) by (nonlinear_arith)
        requires
            fx_add(fx_int(length), fx_int(1)).raw == length * s + s,
    ;
    assert(2 * s * s <= s * ((length + 1) * s)) by (nonlinear_arith)
        requires
            length >= 1,
            s > 0,
    ;
    assert(2 * s * s == (2 * s) * s) by (nonlinear_arith);
    lemma_div_round_nonneg(2 * s * s, (length + 1) * s);
    lemma_div_round_le(2 * s * s, (length + 1) * s, s);
}

/// Averaging non-negative inputs from a non-negative start stays non-negative.
pub proof fn lemma_ema_step_nonneg(k: Fixed, current: Fixed, is_new: bool, input: Fixed)
    requires
        0 <= k.raw <= SCALE,
        current.raw >= 0,
        input.raw >= 0,
    ensures
        ema_step(k, current, is_new, input).raw >= 0,
{
    lemma_nonneg_ops(k, input);
    lemma_nonneg_ops(fx_sub(fx_int(1), k), current);
    lemma_nonneg_ops(fx_mul(k, input), fx_mul(fx_sub(fx_int(1), k), current));
}

/// Exponential moving average with smoothing factor `2 / (length + 1)`.
pub struct ExponentialMovingAverage {
    length: u32,
    k: Fixed,
    current: Fixed,
    is_new: bool,
}

/// `after` is `before` fed `input`, and `r` is what it returned.
pub open spec fn ema_advanced(
    before: ExponentialMovingAverage,
    after: ExponentialMovingAverage,
    input: Fixed,
    r: Fixed,
) -> bool {
    &&& after.wf()
    &&& after.length_spec() == before.length_spec()
    &&& r == ema_step(ema_k(before.length_spec() as int), before.current_spec(), before.is_new_spec(), input)
    &&& after.current_spec() == r
    &&& !after.is_new_spec()
}

/// `e` is as `new(length)` made it.
pub open spec fn ema_fresh(e: ExponentialMovingAverage, length: u32) -> bool {
    &&& e.wf()
    &&& e.length_spec() == length
    &&& e.current_spec() == fx_int(0)
    &&& e.is_new_spec()
}

impl ExponentialMovingAverage {
    pub closed spec fn length_spec(&self) -> u32 {
        self.length
    }

    pub closed spec fn current_spec(&self) -> Fixed {
        self.current
    }

    /// No input arrived since construction or the last reset.
    pub closed spec fn is_new_spec(&self) -> bool {
        self.is_new
    }

    pub closed spec fn wf(&self) -> bool {
        &&& self.length >= 1
        &&& self.k == ema_k(self.length as int)
    }

    /// Fails with `InvalidParameter` when `length` is zero.
    pub fn new(length: u32) -> (r: Result<Self, Error>)
        ensures
            length == 0 <==> r is Err,
            r matches Err(e) ==> e == Error::InvalidParameter,
            r matches Ok(e) ==> ema_fresh(e, length),
    {
        if length == 0 {
            return Err(Error::InvalidParameter);
        }
        let k = Fixed::from_u32(2).div(Fixed::from_u32(length).add(Fixed::one()));
        Ok(ExponentialMovingAverage { length, k, current: Fixed::zero(), is_new: true })
    }

    pub fn length(&self) -> (r: u32)
        ensures
            r == self.length_spec(),
    {
        self.length
    }

    /// Feeds one input; returns the new average.
    pub fn next(&mut self, input: Fixed) -> (r: Fixed)
        requires
            old(self).wf(),
        ensures
            ema_advanced(*old(self), *final(self), input, r),
    {
        if self.is_new {
            self.is_new = false;
            self.current = input;
        } else {
            self.current = self.k.mul(input).add(Fixed::one().sub(self.k).mul(self.current));
        }
        self.current
    }

    /// Feeds the close of a bar.
    pub fn next_bar<B: Close>(&mut self, input: &B) -> (r: Fixed)
        requires
            old(self).wf(),
        ensures
            ema_advanced(*old(self), *final(self), input.close_of(), r),
    {
        self.next(input.close())
    }

    /// Back to the state `new` gives.
    pub fn reset(&mut self)
        requires
            old(self).wf(),
        ensures
            ema_fresh(*final(self), old(self).length_spec()),
    {
        self.current = Fixed::zero();
        self.is_new = true;
    }

    /// The indicator's name and configuration.
    pub fn to_string(&self) -> (r: String)
        ensures
            r@ == "EMA"@ + seq!['('] + decimal(self.length_spec() as nat) + seq![')'],
    {
        label1("EMA", self.length)
    }
}

impl Reset for ExponentialMovingAverage {
    open spec fn valid(&self) -> bool {
        self.wf()
    }

    fn reset(&mut self) {
        ExponentialMovingAverage::reset(self)
    }
}

impl Next<Fixed> for ExponentialMovingAverage {
    type Output = Fixed;

    fn next(&mut self, input: Fixed) -> (r: Fixed) {
        ExponentialMovingAverage::next(self, input)
    }
}

impl<'a, B: Close> Next<&'a B> for ExponentialMovingAverage {
    type Output = Fixed;

    fn next(&mut self, input: &'a B) -> (r: Fixed) {
        ExponentialMovingAverage::next_bar(self, input)
    }
}

impl Default for ExponentialMovingAverage {
    fn default() -> (r: Self)
        ensures
            ema_fresh(r, 9),
    {
        match ExponentialMovingAverage::new(9) {
            Ok(x) => x,
            Err(_) => unreached(),
        }
    }
}

} // verus!

use crate::errors::Error;
use crate::fixed::{fx_add, fx_div, fx_int, fx_mul, fx_sub, lemma_nonneg_ops, Fixed};
use crate::traits::Close;
use crate::label::{decimal, label1};
use crate::traits::{Next, Reset};
use vstd::prelude::*;

verus! {

/// The next value: the first input as it is, then
/// `(current * (length - 1) + input) / length`.
pub open spec fn smma_step(length: int, current: Fixed, is_new: bool, input: Fixed) -> Fixed {
    if is_new {
        input
    } else {
        fx_div(fx_add(fx_mul(current, fx_sub(fx_int(length), fx_int(1))), input), fx_int(length))
    }
}

/// Averaging non-negative inputs from a non-negative start stays non-negative.
pub proof fn lemma_smma_step_nonneg(length: int, current: Fixed, is_new: bool, input: Fixed)
    requires
        1 <= length <= u32::MAX,
        current.raw >= 0,
        input.raw >= 0,
    ensures
        smma_step(length, current, is_new, input).raw >= 0,
{
    assert(0 < length * 1_000_000_000 <= 4294967295 * 1_000_000_000) by (nonlinear_arith)
        requires
            1 <= length <= 4294967295,
    ;
    let n1 = fx_sub(fx_int(length), fx_int(1));
    lemma_nonneg_ops(current, n1);
    lemma_nonneg_ops(fx_mul(current, n1), input);
    lemma_nonneg_ops(fx_add(fx_mul(current, n1), input), fx_int(length));
}

/// Smoothed (modified) moving average: weight `1 / length` on the newest input.
pub struct SmoothedOrModifiedMovingAverage {
    length: u32,
    current: Fixed,
    is_new: bool,
}

/// `after` is `before` fed `input`, and `r` is what it returned.
pub open spec fn smma_advanced(
    before: SmoothedOrModifiedMovingAverage,
    after: SmoothedOrModifiedMovingAverage,
    input: Fixed,
    r: Fixed,
) -> bool {
    &&& after.wf()
    &&& after.length_spec() == before.length_spec()
    &&& r == smma_step(before.length_spec() as int, before.current_spec(), before.is_new_spec(), input)
    &&& after.current_spec() == r
    &&& !after.is_new_spec()
}

/// `e` is as `new(length)` made it.
pub open spec fn smma_fresh(e: SmoothedOrModifiedMovingAverage, length: u32) -> bool {
    &&& e.wf()
    &&& e.length_spec() == length
    &&& e.current_spec() == fx_int(0)
    &&& e.is_new_spec()
}

impl SmoothedOrModifiedMovingAverage {
    pub closed spec fn length_spec(&self) -> u32 {
        self.length
    }

    pub closed spec fn current_spec(&self) -> Fixed {
        self.current
    }

    /// No input arrived since construction or the last reset.
    pub closed spec fn is_new_spec(&self) -> bool {
        self.is_new
    }

    pub closed spec fn wf(&self) -> bool {
        self.length >= 1
    }

    /// Fails with `InvalidParameter` when `length` is zero.
    pub fn new(length: u32) -> (r: Result<Self, Error>)
        ensures
            length == 0 <==> r is Err,
            r matches Err(e) ==> e == Error::InvalidParameter,
            r matches Ok(e) ==> smma_fresh(e, length),
    {
        if length == 0 {
            return Err(Error::InvalidParameter);
        }
        Ok(SmoothedOrModifiedMovingAverage { length, current: Fixed::zero(), is_new: true })
    }

    pub fn length(&self) -> (r: u32)
        ensures
            r == self.length_spec(),
    {
        self.length
    }

    /// Feeds one input; returns the new average.
    pub fn next(&mut self, input: Fixed) -> (r: Fixed)
        requires
            old(self).wf(),
        ensures
            smma_advanced(*old(self), *final(self), input, r),
    {
        if self.is_new {
            self.is_new = false;
            self.current = input;
        } else {
            let n = Fixed::from_u32(self.length);
            self.current = self.current.mul(n.sub(Fixed::one())).add(input).div(n);
        }
        self.current
    }

    /// Feeds the close of a bar.
    pub fn next_bar<B: Close>(&mut self, input: &B) -> (r: Fixed)
        requires
            old(self).wf(),
        ensures
            smma_advanced(*old(self), *final(self), input.close_of(), r),
    {
        self.next(input.close())
    }

    /// Back to the state `new` gives.
    pub fn reset(&mut self)
        requires
            old(self).wf(),
        ensures
            smma_fresh(*final(self), old(self).length_spec()),
    {
        self.current = Fixed::zero();
        self.is_new = true;
    }

    /// The indicator's name and configuration.
    pub fn to_string(&self) -> (r: String)
        ensures
            r@ == "SMMA"@ + seq!['('] + decimal(self.length_spec() as nat) + seq![')'],
    {
        label1("SMMA", self.length)
    }
}

impl Reset for SmoothedOrModifiedMovingAverage {
    open spec fn valid(&self) -> bool {
        self.wf()
    }

    fn reset(&mut self) {
        SmoothedOrModifiedMovingAverage::reset(self)
    }
}

impl Next<Fixed> for SmoothedOrModifiedMovingAverage {
    type Output = Fixed;

    fn next(&mut self, input: Fixed) -> (r: Fixed) {
        SmoothedOrModifiedMovingAverage::next(self, input)
    }
}

impl<'a, B: Close> Next<&'a B> for SmoothedOrModifiedMovingAverage {
    type Output = Fixed;

    fn next(&mut self, input: &'a B) -> (r: Fixed) {
        SmoothedOrModifiedMovingAverage::next_bar(self, input)
    }
}

impl Default for SmoothedOrModifiedMovingAverage {
    fn default() -> (r: Self)
        ensures
            smma_fresh(r, 9),
    {
        match SmoothedOrModifiedMovingAverage::new(9) {
            Ok(x) => x,
            Err(_) => unreached(),
        }
    }
}

} // verus!

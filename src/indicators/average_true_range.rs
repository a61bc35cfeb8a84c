use crate::errors::Error;
use crate::fixed::Fixed;
use crate::indicators::exponential_moving_average::{
    ema_advanced, ema_fresh, ExponentialMovingAverage,
};
use crate::indicators::true_range::{bar_range, value_range, TrueRange};
use crate::traits::{Close, High, Low};
use crate::label::{decimal, label1};
use crate::traits::{Next, Reset};
use vstd::prelude::*;

verus! {

/// Average true range: the true range smoothed by an EMA of `length`.
pub struct AverageTrueRange {
    true_range: TrueRange,
    ema: ExponentialMovingAverage,
}

impl AverageTrueRange {
    pub closed spec fn range(&self) -> TrueRange {
        self.true_range
    }

    pub closed spec fn ema(&self) -> ExponentialMovingAverage {
        self.ema
    }

    pub closed spec fn wf(&self) -> bool {
        self.ema.wf()
    }

    /// Fails with `InvalidParameter` when `length` is zero.
    pub fn new(length: u32) -> (r: Result<Self, Error>)
        ensures
            length == 0 <==> r is Err,
            r matches Err(e) ==> e == Error::InvalidParameter,
            r matches Ok(a) ==> a.wf() && a.range().prev() is None && ema_fresh(a.ema(), length),
    {
        match ExponentialMovingAverage::new(length) {
            Ok(ema) => Ok(AverageTrueRange { true_range: TrueRange::new(), ema }),
            Err(e) => Err(e),
        }
    }

    pub fn next(&mut self, input: Fixed) -> (r: Fixed)
        requires
            old(self).wf(),
        ensures
            final(self).wf(),
            final(self).range().prev() == Some(input),
            ema_advanced(old(self).ema(), final(self).ema(), value_range(old(self).range().prev(), input), r),
    {
        let tr = self.true_range.next(input);
        self.ema.next(tr)
    }

    pub fn next_bar<B: High + Low + Close>(&mut self, input: &B) -> (r: Fixed)
        requires
            old(self).wf(),
        ensures
            final(self).wf(),
            final(self).range().prev() == Some(input.close_of()),
            ema_advanced(
                old(self).ema(),
                final(self).ema(),
                bar_range(old(self).range().prev(), input.high_of(), input.low_of()),
                r,
            ),
    {
        let tr = self.true_range.next_bar(input);
        self.ema.next(tr)
    }

    /// Back to the state `new` gives.
    pub fn reset(&mut self)
        requires
            old(self).wf(),
        ensures
            final(self).wf(),
            final(self).range().prev() is None,
            ema_fresh(final(self).ema(), old(self).ema().length_spec()),
    {
        self.true_range.reset();
        self.ema.reset();
    }

    /// The indicator's name and configuration.
    pub fn to_string(&self) -> (r: String)
        ensures
            r@ == "ATR"@ + seq!['('] + decimal(self.ema().length_spec() as nat) + seq![')'],
    {
        label1("ATR", self.ema.length())
    }
}

impl Reset for AverageTrueRange {
    open spec fn valid(&self) -> bool {
        self.wf()
    }

    fn reset(&mut self) {
        AverageTrueRange::reset(self)
    }
}

impl Next<Fixed> for AverageTrueRange {
    type Output = Fixed;

    fn next(&mut self, input: Fixed) -> (r: Fixed) {
        AverageTrueRange::next(self, input)
    }
}

impl<'a, B: High + Low + Close> Next<&'a B> for AverageTrueRange {
    type Output = Fixed;

    fn next(&mut self, input: &'a B) -> (r: Fixed) {
        AverageTrueRange::next_bar(self, input)
    }
}

impl Default for AverageTrueRange {
    fn default() -> (r: Self)
        ensures
            r.wf() && r.range().prev() is None && ema_fresh(r.ema(), 14),
    {
        match AverageTrueRange::new(14) {
            Ok(x) => x,
            Err(_) => unreached(),
        }
    }
}

} // verus!

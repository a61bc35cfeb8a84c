use crate::errors::Error;
use crate::fixed::Fixed;
use crate::indicators::exponential_moving_average::{
    ema_advanced, ema_fresh, ExponentialMovingAverage,
};
use crate::indicators::fast_stochastic::{fast_advanced, fast_output, FastStochastic};
use crate::traits::{Close, High, Low};
use crate::label::{decimal, label2};
use crate::traits::{Next, Reset};
use vstd::prelude::*;

verus! {

/// Slow stochastic oscillator: the fast one smoothed by an EMA.
pub struct SlowStochastic {
    fast_stochastic: FastStochastic,
    ema: ExponentialMovingAverage,
}

impl SlowStochastic {
    pub closed spec fn fast(&self) -> FastStochastic {
        self.fast_stochastic
    }

    pub closed spec fn ema(&self) -> ExponentialMovingAverage {
        self.ema
    }

    pub closed spec fn wf(&self) -> bool {
        &&& self.fast_stochastic.wf()
        &&& self.ema.wf()
    }

    /// Fails with `InvalidParameter` when either length is zero.
    pub fn new(stochastic_n: u32, ema_n: u32) -> (r: Result<Self, Error>)
        ensures
            r is Err <==> (stochastic_n == 0 || ema_n == 0),
            r matches Err(e) ==> e == Error::InvalidParameter,
            r matches Ok(s) ==> s.wf() && s.fast().length_spec() == stochastic_n && s.fast().lows()
                == Seq::<Fixed>::empty() && s.fast().highs() == Seq::<Fixed>::empty() && ema_fresh(
                s.ema(),
                ema_n,
            ),
    {
        let fast_stochastic = match FastStochastic::new(stochastic_n) {
            Ok(f) => f,
            Err(e) => return Err(e),
        };
        let ema = match ExponentialMovingAverage::new(ema_n) {
            Ok(e) => e,
            Err(e) => return Err(e),
        };
        Ok(SlowStochastic { fast_stochastic, ema })
    }

    pub fn next(&mut self, input: Fixed) -> (r: Fixed)
        requires
            old(self).wf(),
        ensures
            final(self).wf(),
            fast_advanced(
                old(self).fast(),
                final(self).fast(),
                input,
                input,
                input,
                fast_output(final(self).fast(), input),
            ),
            ema_advanced(old(self).ema(), final(self).ema(), fast_output(final(self).fast(), input), r),
    {
        let f = self.fast_stochastic.next(input);
        self.ema.next(f)
    }

    pub fn next_bar<B: High + Low + Close>(&mut self, input: &B) -> (r: Fixed)
        requires
            old(self).wf(),
        ensures
            final(self).wf(),
            fast_advanced(
                old(self).fast(),
                final(self).fast(),
                input.close_of(),
                input.low_of(),
                input.high_of(),
                fast_output(final(self).fast(), input.close_of()),
            ),
            ema_advanced(
                old(self).ema(),
                final(self).ema(),
                fast_output(final(self).fast(), input.close_of()),
                r,
            ),
    {
        let f = self.fast_stochastic.next_bar(input);
        self.ema.next(f)
    }

    /// Back to the state `new` gives.
    pub fn reset(&mut self)
        requires
            old(self).wf(),
        ensures
            final(self).wf(),
            final(self).fast().length_spec() == old(self).fast().length_spec(),
            final(self).fast().lows() == Seq::<Fixed>::empty(),
            final(self).fast().highs() == Seq::<Fixed>::empty(),
            ema_fresh(final(self).ema(), old(self).ema().length_spec()),
    {
        self.fast_stochastic.reset();
        self.ema.reset();
    }

    /// The indicator's name and configuration.
    pub fn to_string(&self) -> (r: String)
        requires
            self.wf(),
        ensures
            r@ == "SLOW_STOCH"@ + seq!['('] + decimal(self.fast().length_spec() as nat) + seq![',', ' '] + decimal(self.ema().length_spec() as nat) + seq![')'],
    {
        label2("SLOW_STOCH", self.fast_stochastic.length(), self.ema.length())
    }
}

impl Reset for SlowStochastic {
    open spec fn valid(&self) -> bool {
        self.wf()
    }

    fn reset(&mut self) {
        SlowStochastic::reset(self)
    }
}

impl Next<Fixed> for SlowStochastic {
    type Output = Fixed;

    fn next(&mut self, input: Fixed) -> (r: Fixed) {
        SlowStochastic::next(self, input)
    }
}

impl<'a, B: High + Low + Close> Next<&'a B> for SlowStochastic {
    type Output = Fixed;

    fn next(&mut self, input: &'a B) -> (r: Fixed) {
        SlowStochastic::next_bar(self, input)
    }
}

impl Default for SlowStochastic {
    fn default() -> (r: Self)
        ensures
            r.wf() && r.fast().length_spec() == 14 && r.fast().lows() == Seq::<Fixed>::empty() && r.fast().highs() == Seq::<Fixed>::empty() && ema_fresh(r.ema(), 3),
    {
        match SlowStochastic::new(14, 3) {
            Ok(x) => x,
            Err(_) => unreached(),
        }
    }
}

} // verus!

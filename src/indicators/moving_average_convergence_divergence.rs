use crate::errors::Error;
use crate::fixed::{fx_sub, Fixed};
use crate::indicators::exponential_moving_average::{
    ema_advanced, ema_fresh, ExponentialMovingAverage as Ema,
};
use crate::traits::Close;
use crate::label::{decimal, label3};
use crate::traits::{Next, Reset};
use vstd::prelude::*;

verus! {

/// MACD: the difference of a fast and a slow EMA, its signal EMA, and the
/// histogram between the two.
pub struct MovingAverageConvergenceDivergence {
    fast_ema: Ema,
    slow_ema: Ema,
    signal_ema: Ema,
}

impl MovingAverageConvergenceDivergence {
    pub closed spec fn fast(&self) -> Ema {
        self.fast_ema
    }

    pub closed spec fn slow(&self) -> Ema {
        self.slow_ema
    }

    pub closed spec fn signal(&self) -> Ema {
        self.signal_ema
    }

    pub closed spec fn wf(&self) -> bool {
        &&& self.fast_ema.wf()
        &&& self.slow_ema.wf()
        &&& self.signal_ema.wf()
    }

    /// Fails with `InvalidParameter` when any length is zero.
    pub fn new(fast_length: u32, slow_length: u32, signal_length: u32) -> (r: Result<Self, Error>)
        ensures
            r is Err <==> (fast_length == 0 || slow_length == 0 || signal_length == 0),
            r matches Err(e) ==> e == Error::InvalidParameter,
            r matches Ok(m) ==> m.wf() && ema_fresh(m.fast(), fast_length) && ema_fresh(m.slow(), slow_length)
                && ema_fresh(m.signal(), signal_length),
    {
        let fast_ema = match Ema::new(fast_length) {
            Ok(e) => e,
            Err(e) => return Err(e),
        };
        let slow_ema = match Ema::new(slow_length) {
            Ok(e) => e,
            Err(e) => return Err(e),
        };
        let signal_ema = match Ema::new(signal_length) {
            Ok(e) => e,
            Err(e) => return Err(e),
        };
        Ok(MovingAverageConvergenceDivergence { fast_ema, slow_ema, signal_ema })
    }

    /// Feeds one input; returns `(macd, signal, histogram)`.
    pub fn next(&mut self, input: Fixed) -> (r: (Fixed, Fixed, Fixed))
        requires
            old(self).wf(),
        ensures
            final(self).wf(),
            ema_advanced(old(self).fast(), final(self).fast(), input, final(self).fast().current_spec()),
            ema_advanced(old(self).slow(), final(self).slow(), input, final(self).slow().current_spec()),
            r.0 == fx_sub(final(self).fast().current_spec(), final(self).slow().current_spec()),
            ema_advanced(old(self).signal(), final(self).signal(), r.0, r.1),
            r.2 == fx_sub(r.0, r.1),
    {
        let fast_val = self.fast_ema.next(input);
        let slow_val = self.slow_ema.next(input);
        let macd = fast_val.sub(slow_val);
        let signal = self.signal_ema.next(macd);
        let histogram = macd.sub(signal);
        (macd, signal, histogram)
    }

    /// Feeds the close of a bar.
    pub fn next_bar<B: Close>(&mut self, input: &B) -> (r: (Fixed, Fixed, Fixed))
        requires
            old(self).wf(),
        ensures
            final(self).wf(),
            ema_advanced(old(self).fast(), final(self).fast(), input.close_of(), final(self).fast().current_spec()),
            ema_advanced(old(self).slow(), final(self).slow(), input.close_of(), final(self).slow().current_spec()),
            r.0 == fx_sub(final(self).fast().current_spec(), final(self).slow().current_spec()),
            ema_advanced(old(self).signal(), final(self).signal(), r.0, r.1),
            r.2 == fx_sub(r.0, r.1),
    {
        self.next(input.close())
    }

    /// Back to the state `new` gives.
    pub fn reset(&mut self)
        requires
            old(self).wf(),
        ensures
            final(self).wf(),
            ema_fresh(final(self).fast(), old(self).fast().length_spec()),
            ema_fresh(final(self).slow(), old(self).slow().length_spec()),
            ema_fresh(final(self).signal(), old(self).signal().length_spec()),
    {
        self.fast_ema.reset();
        self.slow_ema.reset();
        self.signal_ema.reset();
    }

    /// The indicator's name and configuration.
    pub fn to_string(&self) -> (r: String)
        ensures
            r@ == "MACD"@ + seq!['('] + decimal(self.fast().length_spec() as nat) + seq![',', ' '] + decimal(self.slow().length_spec() as nat) + seq![',', ' '] + decimal(self.signal().length_spec() as nat) + seq![')'],
    {
        label3("MACD", self.fast_ema.length(), self.slow_ema.length(), self.signal_ema.length())
    }
}

impl Reset for MovingAverageConvergenceDivergence {
    open spec fn valid(&self) -> bool {
        self.wf()
    }

    fn reset(&mut self) {
        MovingAverageConvergenceDivergence::reset(self)
    }
}

impl Next<Fixed> for MovingAverageConvergenceDivergence {
    type Output = (Fixed, Fixed, Fixed);

    fn next(&mut self, input: Fixed) -> (r: (Fixed, Fixed, Fixed)) {
        MovingAverageConvergenceDivergence::next(self, input)
    }
}

impl<'a, B: Close> Next<&'a B> for MovingAverageConvergenceDivergence {
    type Output = (Fixed, Fixed, Fixed);

    fn next(&mut self, input: &'a B) -> (r: (Fixed, Fixed, Fixed)) {
        MovingAverageConvergenceDivergence::next_bar(self, input)
    }
}

impl Default for MovingAverageConvergenceDivergence {
    fn default() -> (r: Self)
        ensures
            r.wf() && ema_fresh(r.fast(), 12) && ema_fresh(r.slow(), 26) && ema_fresh(r.signal(), 9),
    {
        match MovingAverageConvergenceDivergence::new(12, 26, 9) {
            Ok(x) => x,
            Err(_) => unreached(),
        }
    }
}

} // verus!

use crate::errors::Error;
use crate::fixed::{fx_div, fx_int, fx_mul, fx_sub, Fixed};
use crate::indicators::maximum::Maximum;
use crate::indicators::minimum::Minimum;
use crate::traits::{Close, High, Low};
use crate::window::{last_n, seq_max, seq_min};
use crate::label::{decimal, label1};
use crate::traits::{Next, Reset};
use vstd::prelude::*;

verus! {

/// Where `value` sits between `lowest` and `highest`, in percent; 50 when
/// the two are equal.
pub open spec fn stoch_value(value: Fixed, lowest: Fixed, highest: Fixed) -> Fixed {
    if lowest == highest {
        fx_int(50)
    } else {
        fx_mul(fx_div(fx_sub(value, lowest), fx_sub(highest, lowest)), fx_int(100))
    }
}

/// Fast stochastic oscillator over a window of `length`.
pub struct FastStochastic {
    length: u32,
    minimum: Minimum,
    maximum: Maximum,
}

/// `after` is `before` fed `value` with `low` and `high` entering the
/// windows, and `r` is what it returned.
pub open spec fn fast_advanced(
    before: FastStochastic,
    after: FastStochastic,
    value: Fixed,
    low: Fixed,
    high: Fixed,
    r: Fixed,
) -> bool {
    &&& after.wf()
    &&& after.length_spec() == before.length_spec()
    &&& after.lows() == before.lows().push(low)
    &&& after.highs() == before.highs().push(high)
    &&& r == fast_output(after, value)
}

/// Where `value` sits in the windows of `f`.
pub open spec fn fast_output(f: FastStochastic, value: Fixed) -> Fixed {
    stoch_value(
        value,
        seq_min(last_n(f.lows(), f.length_spec() as nat)),
        seq_max(last_n(f.highs(), f.length_spec() as nat)),
    )
}

impl FastStochastic {
    pub closed spec fn length_spec(&self) -> u32 {
        self.length
    }

    /// Every value that entered the minimum's window.
    pub closed spec fn lows(&self) -> Seq<Fixed> {
        self.minimum.history()
    }

    /// Every value that entered the maximum's window.
    pub closed spec fn highs(&self) -> Seq<Fixed> {
        self.maximum.history()
    }

    pub closed spec fn wf(&self) -> bool {
        &&& self.minimum.wf()
        &&& self.maximum.wf()
        &&& self.minimum.window_len() == self.length
        &&& self.maximum.window_len() == self.length
    }

    /// Fails with `InvalidParameter` when `length` is zero.
    pub fn new(length: u32) -> (r: Result<Self, Error>)
        ensures
            length == 0 <==> r is Err,
            r matches Err(e) ==> e == Error::InvalidParameter,
            r matches Ok(s) ==> s.wf() && s.length_spec() == length && s.lows() == Seq::<Fixed>::empty()
                && s.highs() == Seq::<Fixed>::empty(),
    {
        let minimum = match Minimum::new(length) {
            Ok(m) => m,
            Err(e) => return Err(e),
        };
        let maximum = match Maximum::new(length) {
            Ok(m) => m,
            Err(e) => return Err(e),
        };
        Ok(FastStochastic { length, minimum, maximum })
    }

    pub fn length(&self) -> (r: u32)
        ensures
            r == self.length_spec(),
    {
        self.length
    }

    /// Feeds one value, which enters both windows.
    pub fn next(&mut self, input: Fixed) -> (r: Fixed)
        requires
            old(self).wf(),
        ensures
            fast_advanced(*old(self), *final(self), input, input, input, r),
            old(self).lows().len() == 0 && old(self).highs().len() == 0 ==> r == fx_int(50),
    {
        let min = self.minimum.next(input);
        let max = self.maximum.next(input);
        proof {
            if old(self).lows().len() == 0 && old(self).highs().len() == 0 {
                assert(self.minimum.history().len() == 1);
                assert(last_n(self.minimum.history(), self.length as nat) =~= seq![input]);
                assert(last_n(self.maximum.history(), self.length as nat) =~= seq![input]);
            }
        }
        if min == max {
            Fixed::from_u32(50)
        } else {
            input.sub(min).div(max.sub(min)).mul(Fixed::from_u32(100))
        }
    }

    /// Feeds a bar: its high enters the maximum's window, its low the
    /// minimum's, and its close is placed between them.
    pub fn next_bar<B: High + Low + Close>(&mut self, input: &B) -> (r: Fixed)
        requires
            old(self).wf(),
        ensures
            fast_advanced(*old(self), *final(self), input.close_of(), input.low_of(), input.high_of(), r),
    {
        let highest = self.maximum.next(input.high());
        let lowest = self.minimum.next(input.low());
        let close = input.close();
        if highest == lowest {
            Fixed::from_u32(50)
        } else {
            close.sub(lowest).div(highest.sub(lowest)).mul(Fixed::from_u32(100))
        }
    }

    /// Forgets every input.
    pub fn reset(&mut self)
        requires
            old(self).wf(),
        ensures
            final(self).wf(),
            final(self).length_spec() == old(self).length_spec(),
            final(self).lows() == Seq::<Fixed>::empty(),
            final(self).highs() == Seq::<Fixed>::empty(),
    {
        self.minimum.reset();
        self.maximum.reset();
    }

    /// The indicator's name and configuration.
    pub fn to_string(&self) -> (r: String)
        ensures
            r@ == "FAST_STOCH"@ + seq!['('] + decimal(self.length_spec() as nat) + seq![')'],
    {
        label1("FAST_STOCH", self.length)
    }
}

impl Reset for FastStochastic {
    open spec fn valid(&self) -> bool {
        self.wf()
    }

    fn reset(&mut self) {
        FastStochastic::reset(self)
    }
}

impl Next<Fixed> for FastStochastic {
    type Output = Fixed;

    fn next(&mut self, input: Fixed) -> (r: Fixed) {
        FastStochastic::next(self, input)
    }
}

impl<'a, B: High + Low + Close> Next<&'a B> for FastStochastic {
    type Output = Fixed;

    fn next(&mut self, input: &'a B) -> (r: Fixed) {
        FastStochastic::next_bar(self, input)
    }
}

impl Default for FastStochastic {
    fn default() -> (r: Self)
        ensures
            r.wf() && r.length_spec() == 14 && r.lows() == Seq::<Fixed>::empty() && r.highs() == Seq::<Fixed>::empty(),
    {
        match FastStochastic::new(14) {
            Ok(x) => x,
            Err(_) => unreached(),
        }
    }
}

} // verus!

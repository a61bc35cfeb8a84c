use crate::fixed::{fx_add, fx_int, fx_sub, Fixed};
use crate::traits::{Close, Volume};
use crate::traits::{Next, Reset};
use vstd::prelude::*;
use vstd::string::*;

verus! {

/// The running total after a bar: volume added on a higher close,
/// subtracted on a lower one, unchanged on an equal one.
pub open spec fn obv_step(obv: Fixed, prev_close: Fixed, close: Fixed, volume: Fixed) -> Fixed {
    if close.raw > prev_close.raw {
        fx_add(obv, volume)
    } else if close.raw < prev_close.raw {
        fx_sub(obv, volume)
    } else {
        obv
    }
}

/// On-balance volume; the previous close starts at zero.
#[derive(Clone, Copy)]
pub struct OnBalanceVolume {
    obv: Fixed,
    prev_close: Fixed,
}

impl OnBalanceVolume {
    pub closed spec fn total(&self) -> Fixed {
        self.obv
    }

    pub closed spec fn prev(&self) -> Fixed {
        self.prev_close
    }

    pub fn new() -> (r: Self)
        ensures
            r.total() == fx_int(0),
            r.prev() == fx_int(0),
    {
        OnBalanceVolume { obv: Fixed::zero(), prev_close: Fixed::zero() }
    }

    pub fn next_bar<B: Close + Volume>(&mut self, input: &B) -> (r: Fixed)
        ensures
            r == obv_step(old(self).total(), old(self).prev(), input.close_of(), input.volume_of()),
            final(self).total() == r,
            final(self).prev() == input.close_of(),
    {
        let close = input.close();
        if close.raw > self.prev_close.raw {
            self.obv = self.obv.add(input.volume());
        } else if close.raw < self.prev_close.raw {
            self.obv = self.obv.sub(input.volume());
        }
        self.prev_close = close;
        self.obv
    }

    pub fn reset(&mut self)
        ensures
            final(self).total() == fx_int(0),
            final(self).prev() == fx_int(0),
    {
        self.obv = Fixed::zero();
        self.prev_close = Fixed::zero();
    }

    /// The indicator's name and configuration.
    pub fn to_string(&self) -> (r: String)
        ensures
            r@ == "OBV"@,
    {
        String::from_str("OBV")
    }
}

impl Reset for OnBalanceVolume {
    open spec fn valid(&self) -> bool {
        true
    }

    fn reset(&mut self) {
        OnBalanceVolume::reset(self)
    }
}

impl<'a, B: Close + Volume> Next<&'a B> for OnBalanceVolume {
    type Output = Fixed;

    fn next(&mut self, input: &'a B) -> (r: Fixed) {
        OnBalanceVolume::next_bar(self, input)
    }
}

impl Default for OnBalanceVolume {
    fn default() -> (r: Self)
        ensures
            r.total() == fx_int(0) && r.prev() == fx_int(0),
    {
        OnBalanceVolume::new()
    }
}

} // verus!

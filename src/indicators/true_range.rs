use crate::fixed::{fx_abs, fx_int, fx_max, fx_sub, Fixed};
use crate::helpers::max3;
use crate::traits::{Close, High, Low};
use crate::traits::{Next, Reset};
use vstd::prelude::*;
use vstd::string::*;

verus! {

/// True range of a bare value: the distance to the previous value, zero at first.
pub open spec fn value_range(prev: Option<Fixed>, input: Fixed) -> Fixed {
    match prev {
        Some(p) => fx_abs(fx_sub(input, p)),
        None => fx_int(0),
    }
}

/// True range of a bar: `high - low` at first, then the largest of
/// `high - low`, `|high - prev_close|` and `|low - prev_close|`.
pub open spec fn bar_range(prev: Option<Fixed>, high: Fixed, low: Fixed) -> Fixed {
    match prev {
        Some(p) => fx_max(fx_max(fx_sub(high, low), fx_abs(fx_sub(high, p))), fx_abs(fx_sub(low, p))),
        None => fx_sub(high, low),
    }
}

/// True range. The value entry point remembers the value; the bar entry
/// point remembers the bar's close.
#[derive(Clone, Copy)]
pub struct TrueRange {
    prev_close: Option<Fixed>,
}

impl TrueRange {
    /// What the next input is measured against.
    pub closed spec fn prev(&self) -> Option<Fixed> {
        self.prev_close
    }

    pub fn new() -> (r: Self)
        ensures
            r.prev() is None,
    {
        TrueRange { prev_close: None }
    }

    pub fn next(&mut self, input: Fixed) -> (r: Fixed)
        ensures
            r == value_range(old(self).prev(), input),
            final(self).prev() == Some(input),
    {
        let distance = match self.prev_close {
            Some(prev) => input.sub(prev).abs(),
            None => Fixed::zero(),
        };
        self.prev_close = Some(input);
        distance
    }

    pub fn next_bar<B: High + Low + Close>(&mut self, bar: &B) -> (r: Fixed)
        ensures
            r == bar_range(old(self).prev(), bar.high_of(), bar.low_of()),
            final(self).prev() == Some(bar.close_of()),
    {
        let high = bar.high();
        let low = bar.low();
        let max_dist = match self.prev_close {
            Some(prev_close) => {
                let dist1 = high.sub(low);
                let dist2 = high.sub(prev_close).abs();
                let dist3 = low.sub(prev_close).abs();
                max3(dist1, dist2, dist3)
            },
            None => high.sub(low),
        };
        self.prev_close = Some(bar.close());
        max_dist
    }

    pub fn reset(&mut self)
        ensures
            final(self).prev() is None,
    {
        self.prev_close = None;
    }

    /// The indicator's name and configuration.
    pub fn to_string(&self) -> (r: String)
        ensures
            r@ == "TRUE_RANGE()"@,
    {
        String::from_str("TRUE_RANGE()")
    }
}

impl Reset for TrueRange {
    open spec fn valid(&self) -> bool {
        true
    }

    fn reset(&mut self) {
        TrueRange::reset(self)
    }
}

impl Next<Fixed> for TrueRange {
    type Output = Fixed;

    fn next(&mut self, input: Fixed) -> (r: Fixed) {
        TrueRange::next(self, input)
    }
}

impl<'a, B: High + Low + Close> Next<&'a B> for TrueRange {
    type Output = Fixed;

    fn next(&mut self, input: &'a B) -> (r: Fixed) {
        TrueRange::next_bar(self, input)
    }
}

impl Default for TrueRange {
    fn default() -> (r: Self)
        ensures
            r.prev() is None,
    {
        TrueRange::new()
    }
}

} // verus!

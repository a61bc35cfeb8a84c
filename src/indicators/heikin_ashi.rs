use crate::fixed::{fx_add, fx_div, fx_int, fx_max, fx_min, Fixed};
use crate::traits::{Close, High, Low, Open};
use crate::traits::{Next, Reset};
use vstd::prelude::*;
use vstd::string::*;

verus! {

#[derive(Clone, Copy, Debug, PartialEq, Eq, Structural)]
pub enum HeikinAshiColor {
    Green,
    Red,
}

/// A synthetic candle.
#[derive(Clone, Copy, Debug, PartialEq, Eq, Structural)]
pub struct HeikinAshiCandle {
    pub open: Fixed,
    pub close: Fixed,
    pub high: Fixed,
    pub low: Fixed,
    pub color: HeikinAshiColor,
}

/// The candle made from a bar, given the previous synthetic open and close.
pub open spec fn ha_candle(
    prev: Option<(Fixed, Fixed)>,
    open: Fixed,
    high: Fixed,
    low: Fixed,
    close: Fixed,
) -> HeikinAshiCandle {
    let ha_open = match prev {
        Some(p) => fx_div(fx_add(p.0, p.1), fx_int(2)),
        None => close,
    };
    let ha_close = fx_div(fx_add(fx_add(fx_add(open, close), high), low), fx_int(4));
    HeikinAshiCandle {
        open: ha_open,
        close: ha_close,
        high: fx_max(fx_max(high, ha_open), ha_close),
        low: fx_min(fx_min(low, ha_open), ha_close),
        color: if ha_open.raw < ha_close.raw {
            HeikinAshiColor::Green
        } else {
            HeikinAshiColor::Red
        },
    }
}

/// Heikin-Ashi candles; the first synthetic open is the first real close.
#[derive(Clone, Copy)]
pub struct HeikinAshi {
    prev: Option<(Fixed, Fixed)>,
}

fn partial_max(a: Fixed, b: Fixed) -> (r: Fixed)
    ensures
        r == fx_max(a, b),
{
    if a.raw > b.raw {
        a
    } else {
        b
    }
}

fn partial_min(a: Fixed, b: Fixed) -> (r: Fixed)
    ensures
        r == fx_min(a, b),
{
    if a.raw < b.raw {
        a
    } else {
        b
    }
}

impl HeikinAshi {
    /// The previous synthetic open and close.
    pub closed spec fn prev_spec(&self) -> Option<(Fixed, Fixed)> {
        self.prev
    }

    pub fn new() -> (r: Self)
        ensures
            r.prev_spec() is None,
    {
        HeikinAshi { prev: None }
    }

    pub fn next_bar<B: Open + Close + High + Low>(&mut self, input: &B) -> (r: HeikinAshiCandle)
        ensures
            r == ha_candle(old(self).prev_spec(), input.open_of(), input.high_of(), input.low_of(), input.close_of()),
            final(self).prev_spec() == Some((r.open, r.close)),
    {
        let open = match self.prev {
            Some(prev) => prev.0.add(prev.1).div(Fixed::from_u32(2)),
            None => input.close(),
        };
        let close = input.open().add(input.close()).add(input.high()).add(input.low()).div(
            Fixed::from_u32(4),
        );
        self.prev = Some((open, close));
        HeikinAshiCandle {
            open,
            close,
            high: partial_max(partial_max(input.high(), open), close),
            low: partial_min(partial_min(input.low(), open), close),
            color: if open.raw < close.raw {
                HeikinAshiColor::Green
            } else {
                HeikinAshiColor::Red
            },
        }
    }

    pub fn reset(&mut self)
        ensures
            final(self).prev_spec() is None,
    {
        self.prev = None;
    }

    /// The indicator's name and configuration.
    pub fn to_string(&self) -> (r: String)
        ensures
            r@ == "HA()"@,
    {
        String::from_str("HA()")
    }
}

impl Reset for HeikinAshi {
    open spec fn valid(&self) -> bool {
        true
    }

    fn reset(&mut self) {
        HeikinAshi::reset(self)
    }
}

impl<'a, B: Open + Close + High + Low> Next<&'a B> for HeikinAshi {
    type Output = HeikinAshiCandle;

    fn next(&mut self, input: &'a B) -> (r: HeikinAshiCandle) {
        HeikinAshi::next_bar(self, input)
    }
}

impl Default for HeikinAshi {
    fn default() -> (r: Self)
        ensures
            r.prev_spec() is None,
    {
        HeikinAshi::new()
    }
}

} // verus!

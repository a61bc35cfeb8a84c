use crate::errors::Error;
use crate::fixed::{fx_abs, fx_add, fx_div, fx_int, fx_sub, Fixed};
use crate::traits::Close;
use crate::window::{last_n, lemma_last_n_push};
use std::collections::VecDeque;
use crate::label::{decimal, label1};
use crate::traits::{Next, Reset};
use vstd::prelude::*;

verus! {

/// Sum of the absolute moves between consecutive items of `p[..i]`.
pub open spec fn abs_moves(p: Seq<Fixed>, i: int) -> Fixed
    decreases i,
{
    if i <= 1 {
        fx_int(0)
    } else {
        fx_add(abs_moves(p, i - 1), fx_abs(fx_sub(p[i - 2], p[i - 1])))
    }
}

/// Net move over total movement; 1 with fewer than three prices, and 0 when
/// the prices never moved.
pub open spec fn er_value(p: Seq<Fixed>) -> Fixed {
    if p.len() <= 2 {
        fx_int(1)
    } else if abs_moves(p, p.len() as int).raw == 0 {
        fx_int(0)
    } else {
        fx_div(fx_abs(fx_sub(p[0], p.last())), abs_moves(p, p.len() as int))
    }
}

/// How many prices stay held between steps: `length`, but never fewer
/// than two.
pub open spec fn er_held(length: int) -> nat {
    if length < 2 {
        2
    } else {
        length as nat
    }
}

/// Kaufman's efficiency ratio over the last `length + 1` prices (at least
/// three once three arrived).
pub struct EfficiencyRatio {
    length: u32,
    prices: VecDeque<Fixed>,
    history: Ghost<Seq<Fixed>>,
}

impl EfficiencyRatio {
    pub closed spec fn length_spec(&self) -> u32 {
        self.length
    }

    /// Every input fed since construction or the last reset.
    pub closed spec fn history(&self) -> Seq<Fixed> {
        self.history@
    }

    pub closed spec fn wf(&self) -> bool {
        &&& self.length >= 1
        &&& self.prices@ == last_n(self.history@, er_held(self.length as int))
    }

    /// Fails with `InvalidParameter` when `length` is zero.
    pub fn new(length: u32) -> (r: Result<Self, Error>)
        ensures
            length == 0 <==> r is Err,
            r matches Err(e) ==> e == Error::InvalidParameter,
            r matches Ok(s) ==> s.wf() && s.length_spec() == length && s.history() == Seq::<Fixed>::empty(),
    {
        if length == 0 {
            Err(Error::InvalidParameter)
        } else {
            Ok(EfficiencyRatio { length, prices: VecDeque::new(), history: Ghost(Seq::empty()) })
        }
    }

    pub fn next(&mut self, input: Fixed) -> (r: Fixed)
        requires
            old(self).wf(),
        ensures
            final(self).wf(),
            final(self).length_spec() == old(self).length_spec(),
            final(self).history() == old(self).history().push(input),
            r == er_value(last_n(final(self).history(), er_held(final(self).length_spec() as int) + 1)),
    {
        proof {
            lemma_last_n_push(self.history@, er_held(self.length as int), input);
        }
        self.history = Ghost(self.history@.push(input));
        self.prices.push_back(input);
        let len = self.prices.len();
        if len <= 2 {
            return Fixed::one();
        }
        let first = self.prices[0];
        let mut volatility = Fixed::zero();
        let mut prev = first;
        let mut i: usize = 1;
        while i < len
            invariant
                len == self.prices@.len(),
                1 <= i <= len,
                prev == self.prices@[i - 1],
                volatility == abs_moves(self.prices@, i as int),
            decreases len - i,
        {
            let val = self.prices[i];
            volatility = volatility.add(prev.sub(val).abs());
            prev = val;
            i = i + 1;
        }
        let direction = first.sub(self.prices[len - 1]).abs();
        if len > self.length as usize {
            self.prices.pop_front();
        }
        if volatility.raw == 0 {
            Fixed::zero()
        } else {
            direction.div(volatility)
        }
    }

    /// Feeds the close of a bar.
    pub fn next_bar<B: Close>(&mut self, input: &B) -> (r: Fixed)
        requires
            old(self).wf(),
        ensures
            final(self).wf(),
            final(self).length_spec() == old(self).length_spec(),
            final(self).history() == old(self).history().push(input.close_of()),
            r == er_value(last_n(final(self).history(), er_held(final(self).length_spec() as int) + 1)),
    {
        self.next(input.close())
    }

    /// Forgets every price.
    pub fn reset(&mut self)
        requires
            old(self).wf(),
        ensures
            final(self).wf(),
            final(self).length_spec() == old(self).length_spec(),
            final(self).history() == Seq::<Fixed>::empty(),
    {
        self.prices.clear();
        self.history = Ghost(Seq::empty());
    }

    /// The indicator's name and configuration.
    pub fn to_string(&self) -> (r: String)
        ensures
            r@ == "ER"@ + seq!['('] + decimal(self.length_spec() as nat) + seq![')'],
    {
        label1("ER", self.length)
    }
}

impl Reset for EfficiencyRatio {
    open spec fn valid(&self) -> bool {
        self.wf()
    }

    fn reset(&mut self) {
        EfficiencyRatio::reset(self)
    }
}

impl Next<Fixed> for EfficiencyRatio {
    type Output = Fixed;

    fn next(&mut self, input: Fixed) -> (r: Fixed) {
        EfficiencyRatio::next(self, input)
    }
}

impl<'a, B: Close> Next<&'a B> for EfficiencyRatio {
    type Output = Fixed;

    fn next(&mut self, input: &'a B) -> (r: Fixed) {
        EfficiencyRatio::next_bar(self, input)
    }
}

impl Default for EfficiencyRatio {
    fn default() -> (r: Self)
        ensures
            r.wf() && r.length_spec() == 14 && r.history() == Seq::<Fixed>::empty(),
    {
        match EfficiencyRatio::new(14) {
            Ok(x) => x,
            Err(_) => unreached(),
        }
    }
}

} // verus!

use crate::errors::Error;
use crate::fixed::{fx_div, fx_int, fx_mul, fx_sub, Fixed};
use crate::traits::Close;
use crate::window::{last_n, lemma_last_n_push};
use std::collections::VecDeque;
use crate::label::{decimal, label1};
use crate::traits::{Next, Reset};
use vstd::prelude::*;

verus! {

/// Change of the last price of `p` against its first, in percent; 0 for a
/// single price and when the first is zero. Over the last `length + 1`
/// inputs this compares with the input `length` steps back, or with the
/// first input while there are fewer.
pub open spec fn roc_value(p: Seq<Fixed>) -> Fixed {
    if p.len() <= 1 || p[0].raw == 0 {
        fx_int(0)
    } else {
        fx_mul(fx_div(fx_sub(p.last(), p[0]), p[0]), fx_int(100))
    }
}

/// Rate of change against the price `length` steps back.
pub struct RateOfChange {
    length: u32,
    prices: VecDeque<Fixed>,
    history: Ghost<Seq<Fixed>>,
}

impl RateOfChange {
    pub closed spec fn length_spec(&self) -> u32 {
        self.length
    }

    /// Every input fed since construction or the last reset.
    pub closed spec fn history(&self) -> Seq<Fixed> {
        self.history@
    }

    pub closed spec fn wf(&self) -> bool {
        &&& self.length >= 1
        &&& self.prices@ == last_n(self.history@, self.length as nat)
    }

    /// Fails with `InvalidParameter` when `length` is zero.
    pub fn new(length: u32) -> (r: Result<Self, Error>)
        ensures
            length == 0 <==> r is Err,
            r matches Err(e) ==> e == Error::InvalidParameter,
            r matches Ok(s) ==> s.wf() && s.length_spec() == length && s.history() == Seq::<Fixed>::empty(),
    {
        match length {
            0 => Err(Error::InvalidParameter),
            _ => Ok(RateOfChange { length, prices: VecDeque::new(), history: Ghost(Seq::empty()) }),
        }
    }

    pub fn next(&mut self, input: Fixed) -> (r: Fixed)
        requires
            old(self).wf(),
        ensures
            final(self).wf(),
            final(self).length_spec() == old(self).length_spec(),
            final(self).history() == old(self).history().push(input),
            r == roc_value(last_n(final(self).history(), (final(self).length_spec() + 1) as nat)),
    {
        proof {
            lemma_last_n_push(self.history@, self.length as nat, input);
        }
        self.history = Ghost(self.history@.push(input));
        self.prices.push_back(input);
        if self.prices.len() == 1 {
            return Fixed::zero();
        }
        let initial_price = if self.prices.len() > self.length as usize {
            match self.prices.pop_front() {
                Some(p) => p,
                None => input,
            }
        } else {
            self.prices[0]
        };
        if initial_price.raw == 0 {
            Fixed::zero()
        } else {
            input.sub(initial_price).div(initial_price).mul(Fixed::from_u32(100))
        }
    }

    /// Feeds the close of a bar.
    pub fn next_bar<B: Close>(&mut self, input: &B) -> (r: Fixed)
        requires
            old(self).wf(),
        ensures
            final(self).wf(),
            final(self).length_spec() == old(self).length_spec(),
            final(self).history() == old(self).history().push(input.close_of()),
            r == roc_value(last_n(final(self).history(), (final(self).length_spec() + 1) as nat)),
    {
        self.next(input.close())
    }

    /// Forgets every price.
    pub fn reset(&mut self)
        requires
            old(self).wf(),
        ensures
            final(self).wf(),
            final(self).length_spec() == old(self).length_spec(),
            final(self).history() == Seq::<Fixed>::empty(),
    {
        self.prices.clear();
        self.history = Ghost(Seq::empty());
    }

    /// The indicator's name and configuration.
    pub fn to_string(&self) -> (r: String)
        ensures
            r@ == "ROC"@ + seq!['('] + decimal(self.length_spec() as nat) + seq![')'],
    {
        label1("ROC", self.length)
    }
}

impl Reset for RateOfChange {
    open spec fn valid(&self) -> bool {
        self.wf()
    }

    fn reset(&mut self) {
        RateOfChange::reset(self)
    }
}

impl Next<Fixed> for RateOfChange {
    type Output = Fixed;

    fn next(&mut self, input: Fixed) -> (r: Fixed) {
        RateOfChange::next(self, input)
    }
}

impl<'a, B: Close> Next<&'a B> for RateOfChange {
    type Output = Fixed;

    fn next(&mut self, input: &'a B) -> (r: Fixed) {
        RateOfChange::next_bar(self, input)
    }
}

impl Default for RateOfChange {
    fn default() -> (r: Self)
        ensures
            r.wf() && r.length_spec() == 9 && r.history() == Seq::<Fixed>::empty(),
    {
        match RateOfChange::new(9) {
            Ok(x) => x,
            Err(_) => unreached(),
        }
    }
}

} // verus!

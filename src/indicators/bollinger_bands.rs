use crate::errors::Error;
use crate::fixed::{fx_add, fx_div, fx_int, fx_mul, fx_sub, lemma_nonneg_ops, Fixed};
use crate::indicators::standard_deviation::{sqrt_spec, welford, StandardDeviation};
use crate::window::{evicted, last_n};
use crate::traits::Close;
use crate::label::{decimal, fixed_text, push_decimal, push_fixed};
use crate::traits::{Next, Reset};
use vstd::prelude::*;
use vstd::string::*;

verus! {

/// Bollinger Bands: the window's mean, and the mean plus and minus
/// `multiplier` standard deviations.
pub struct BollingerBands {
    length: u32,
    multiplier: Fixed,
    sd: StandardDeviation,
}

#[derive(Clone, Copy, Debug, PartialEq, Eq, Structural)]
pub struct BollingerBandsOutput {
    pub average: Fixed,
    pub upper: Fixed,
    pub lower: Fixed,
}

/// The bands around `mean` at `sd` standard deviation and `multiplier`.
pub open spec fn bands(mean: Fixed, sd: Fixed, multiplier: Fixed) -> BollingerBandsOutput {
    BollingerBandsOutput {
        average: mean,
        upper: fx_add(mean, fx_mul(sd, multiplier)),
        lower: fx_sub(mean, fx_mul(sd, multiplier)),
    }
}

impl BollingerBands {
    pub closed spec fn length_spec(&self) -> u32 {
        self.length
    }

    pub closed spec fn multiplier_spec(&self) -> Fixed {
        self.multiplier
    }

    /// The standard deviation inside.
    pub closed spec fn deviation(&self) -> StandardDeviation {
        self.sd
    }

    pub closed spec fn wf(&self) -> bool {
        &&& self.sd.wf()
        &&& self.sd.window_len() == self.length
        &&& self.multiplier.raw > 0
    }

    /// Fails with `InvalidParameter` when `length` is zero or `multiplier`
    /// is not positive.
    pub fn new(length: u32, multiplier: Fixed) -> (r: Result<Self, Error>)
        ensures
            r is Err <==> (length == 0 || multiplier.raw <= 0),
            r matches Err(e) ==> e == Error::InvalidParameter,
            r matches Ok(b) ==> b.wf() && b.length_spec() == length && b.multiplier_spec() == multiplier
                && b.deviation().history() == Seq::<Fixed>::empty() && b.deviation().count() == 0
                && b.deviation().mean_spec()
                == fx_int(0) && b.deviation().m2_spec() == fx_int(0),
    {
        if multiplier.raw <= 0 {
            return Err(Error::InvalidParameter);
        }
        match StandardDeviation::new(length) {
            Ok(sd) => Ok(BollingerBands { length, multiplier, sd }),
            Err(e) => Err(e),
        }
    }

    pub fn length(&self) -> (r: u32)
        ensures
            r == self.length_spec(),
    {
        self.length
    }

    pub fn multiplier(&self) -> (r: Fixed)
        ensures
            r == self.multiplier_spec(),
    {
        self.multiplier
    }

    /// Feeds one input; the deviation advances as `StandardDeviation::next`.
    pub fn next(&mut self, input: Fixed) -> (r: BollingerBandsOutput)
        requires
            old(self).wf(),
        ensures
            final(self).wf(),
            final(self).length_spec() == old(self).length_spec(),
            final(self).multiplier_spec() == old(self).multiplier_spec(),
            final(self).deviation().history() == old(self).deviation().history().push(input),
            final(self).deviation().count() == last_n(
                final(self).deviation().history(),
                final(self).length_spec() as nat,
            ).len(),
            (final(self).deviation().mean_spec(), final(self).deviation().m2_spec()) == welford(
                old(self).deviation().count() < old(self).length_spec(),
                final(self).deviation().count() as int,
                old(self).length_spec() as int,
                old(self).deviation().mean_spec(),
                old(self).deviation().m2_spec(),
                input,
                evicted(old(self).deviation().history(), old(self).length_spec() as int),
            ),
            r == bands(
                final(self).deviation().mean_spec(),
                sqrt_spec(
                    fx_div(
                        final(self).deviation().m2_spec(),
                        fx_int(final(self).deviation().count() as int),
                    ),
                ),
                final(self).multiplier_spec(),
            ),
            final(self).deviation().m2_spec().raw >= 0 ==> r.lower.raw <= r.average.raw <= r.upper.raw,
    {
        let sd = self.sd.next(input);
        proof {
            if self.sd.m2_spec().raw >= 0 {
                lemma_nonneg_ops(sd, self.multiplier);
            }
        }
        let mean = self.sd.mean();
        BollingerBandsOutput {
            average: mean,
            upper: mean.add(sd.mul(self.multiplier)),
            lower: mean.sub(sd.mul(self.multiplier)),
        }
    }

    /// Feeds the close of a bar.
    pub fn next_bar<B: Close>(&mut self, input: &B) -> (r: BollingerBandsOutput)
        requires
            old(self).wf(),
        ensures
            final(self).wf(),
            final(self).length_spec() == old(self).length_spec(),
            final(self).multiplier_spec() == old(self).multiplier_spec(),
            final(self).deviation().history() == old(self).deviation().history().push(
                input.close_of(),
            ),
            final(self).deviation().count() == last_n(
                final(self).deviation().history(),
                final(self).length_spec() as nat,
            ).len(),
            (final(self).deviation().mean_spec(), final(self).deviation().m2_spec()) == welford(
                old(self).deviation().count() < old(self).length_spec(),
                final(self).deviation().count() as int,
                old(self).length_spec() as int,
                old(self).deviation().mean_spec(),
                old(self).deviation().m2_spec(),
                input.close_of(),
                evicted(old(self).deviation().history(), old(self).length_spec() as int),
            ),
            r == bands(
                final(self).deviation().mean_spec(),
                sqrt_spec(
                    fx_div(
                        final(self).deviation().m2_spec(),
                        fx_int(final(self).deviation().count() as int),
                    ),
                ),
                final(self).multiplier_spec(),
            ),
            final(self).deviation().m2_spec().raw >= 0 ==> r.lower.raw <= r.average.raw <= r.upper.raw,
    {
        self.next(input.close())
    }

    /// Forgets every input.
    pub fn reset(&mut self)
        requires
            old(self).wf(),
        ensures
            final(self).wf(),
            final(self).length_spec() == old(self).length_spec(),
            final(self).multiplier_spec() == old(self).multiplier_spec(),
            final(self).deviation().history() == Seq::<Fixed>::empty(),
            final(self).deviation().count() == 0,
            final(self).deviation().mean_spec() == fx_int(0),
            final(self).deviation().m2_spec() == fx_int(0),
    {
        self.sd.reset();
    }

    /// The indicator's name and configuration.
    pub fn to_string(&self) -> (r: String)
        ensures
            r@ == "BB"@ + seq!['('] + decimal(self.length_spec() as nat) + seq![',', ' '] + fixed_text(self.multiplier_spec()) + seq![')'],
    {
        proof {
            reveal_strlit("(");
            reveal_strlit(", ");
            reveal_strlit(")");
        }
        let mut s = String::from_str("BB");
        s.append("(");
        push_decimal(&mut s, self.length as u64);
        s.append(", ");
        push_fixed(&mut s, self.multiplier);
        s.append(")");
        proof {
            assert(s@ =~= "BB"@ + seq!['('] + decimal(self.length as nat) + seq![',', ' '] + fixed_text(self.multiplier) + seq![')']);
        }
        s
    }
}

impl Reset for BollingerBands {
    open spec fn valid(&self) -> bool {
        self.wf()
    }

    fn reset(&mut self) {
        BollingerBands::reset(self)
    }
}

impl Next<Fixed> for BollingerBands {
    type Output = BollingerBandsOutput;

    fn next(&mut self, input: Fixed) -> (r: BollingerBandsOutput) {
        BollingerBands::next(self, input)
    }
}

impl<'a, B: Close> Next<&'a B> for BollingerBands {
    type Output = BollingerBandsOutput;

    fn next(&mut self, input: &'a B) -> (r: BollingerBandsOutput) {
        BollingerBands::next_bar(self, input)
    }
}

impl Default for BollingerBands {
    fn default() -> (r: Self)
        ensures
            r.wf() && r.length_spec() == 9 && r.multiplier_spec() == fx_int(2) && r.deviation().history() == Seq::<Fixed>::empty() && r.deviation().count() == 0 && r.deviation().mean_spec() == fx_int(0) && r.deviation().m2_spec() == fx_int(0),
    {
        match BollingerBands::new(9, Fixed::from_u32(2)) {
            Ok(x) => x,
            Err(_) => unreached(),
        }
    }
}

} // verus!

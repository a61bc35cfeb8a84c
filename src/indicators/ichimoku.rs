use crate::errors::Error;
use crate::fixed::{fx_add, fx_div, fx_int, fx_max, fx_min, Fixed};
use crate::traits::{Close, High, Low};
use crate::traits::{Next, Reset};
use vstd::prelude::*;

verus! {

/// A fixed number of slots addressed from a moving front.
///
/// `shl` drops the front slot and appends a blank one at the back.
pub struct CircularQueue<T> {
    capacity: u32,
    shl: u32,
    data: Vec<T>,
    blank: T,
}

impl<T> View for CircularQueue<T> {
    type V = Seq<T>;

    closed spec fn view(&self) -> Seq<T> {
        Seq::new(self.capacity as nat, |i: int| self.data@[self.phys(i)])
    }
}

impl<T> CircularQueue<T> {
    closed spec fn phys(&self, i: int) -> int {
        if self.shl + i >= self.capacity {
            self.shl + i - self.capacity
        } else {
            self.shl + i
        }
    }

    /// The value a vacated slot takes.
    pub closed spec fn blank(&self) -> T {
        self.blank
    }

    pub closed spec fn wf(&self) -> bool {
        &&& self.capacity >= 1
        &&& self.shl < self.capacity
        &&& self.data@.len() == self.capacity
    }
}

impl<T: Copy> CircularQueue<T> {
    /// A queue of `length` slots, each holding `blank`.
    pub fn new(length: u32, blank: T) -> (r: Self)
        requires
            length >= 1,
        ensures
            r.wf(),
            r@ == Seq::new(length as nat, |i: int| blank),
            r.blank() == blank,
    {
        let mut data: Vec<T> = Vec::new();
        while data.len() < length as usize
            invariant
                data.len() <= length,
                forall|j: int| 0 <= j < data.len() ==> data@[j] == blank,
            decreases length - data.len(),
        {
            data.push(blank);
        }
        let r = CircularQueue { capacity: length, shl: 0, data, blank };
        assert(r@ =~= Seq::new(length as nat, |i: int| blank));
        r
    }

    fn real_index(&self, idx: u32) -> (r: usize)
        requires
            self.wf(),
            idx < self.capacity,
        ensures
            r == self.phys(idx as int),
            r < self.data@.len(),
    {
        let s = self.shl as u64 + idx as u64;
        if s >= self.capacity as u64 {
            (s - self.capacity as u64) as usize
        } else {
            s as usize
        }
    }

    /// Drops the front slot; the back slot becomes blank.
    pub fn shl(&mut self)
        requires
            old(self).wf(),
        ensures
            final(self).wf(),
            final(self).blank() == old(self).blank(),
            final(self)@ == old(self)@.subrange(1, old(self)@.len() as int).push(old(self).blank()),
    {
        let ghost before = self@;
        let front = self.shl as usize;
        self.data[front] = self.blank;
        self.shl = if self.shl + 1 == self.capacity { 0 } else { self.shl + 1 };
        assert(self@ =~= before.subrange(1, before.len() as int).push(self.blank));
    }

    /// The slot `idx` places from the front.
    pub fn get(&self, idx: u32) -> (r: T)
        requires
            self.wf(),
            idx < self@.len(),
        ensures
            r == self@[idx as int],
    {
        self.data[self.real_index(idx)]
    }

    /// Overwrites the slot `idx` places from the front.
    pub fn set(&mut self, idx: u32, value: T)
        requires
            old(self).wf(),
            idx < old(self)@.len(),
        ensures
            final(self).wf(),
            final(self).blank() == old(self).blank(),
            final(self)@ == old(self)@.update(idx as int, value),
    {
        let ghost before = self@;
        let i = self.real_index(idx);
        self.data[i] = value;
        assert(self@ =~= before.update(idx as int, value));
    }
}

/// Colour of the cloud between the two leading spans.
#[derive(Clone, Copy, Debug, PartialEq, Eq, Structural)]
pub enum KumoColor {
    Green,
    Red,
}

/// One period of the Ichimoku chart; each line is filled once computed.
#[derive(Clone, Copy, Debug, Default, PartialEq, Eq, Structural)]
pub struct IchimokuOutput {
    pub close: Option<Fixed>,
    pub high: Option<Fixed>,
    pub low: Option<Fixed>,
    pub tenkan_sen: Option<Fixed>,
    pub kijun_sen: Option<Fixed>,
    pub senkou_span_a: Option<Fixed>,
    pub senkou_span_b: Option<Fixed>,
    pub chikou_span: Option<Fixed>,
    pub kumo_color: Option<KumoColor>,
}

pub open spec fn empty_output() -> IchimokuOutput {
    IchimokuOutput {
        close: None,
        high: None,
        low: None,
        tenkan_sen: None,
        kijun_sen: None,
        senkou_span_a: None,
        senkou_span_b: None,
        chikou_span: None,
        kumo_color: None,
    }
}

/// Highest high of the periods `lo .. hi`.
pub open spec fn highest(d: Seq<IchimokuOutput>, lo: int, hi: int) -> Fixed
    decreases hi - lo,
{
    if hi <= lo + 1 {
        d[lo].high->0
    } else {
        fx_max(d[hi - 1].high->0, highest(d, lo, hi - 1))
    }
}

/// Lowest low of the periods `lo .. hi`.
pub open spec fn lowest(d: Seq<IchimokuOutput>, lo: int, hi: int) -> Fixed
    decreases hi - lo,
{
    if hi <= lo + 1 {
        d[lo].low->0
    } else {
        fx_min(d[hi - 1].low->0, lowest(d, lo, hi - 1))
    }
}

/// Midpoint of the range of the last `offset` periods before `end`.
pub open spec fn mid_range(d: Seq<IchimokuOutput>, end: int, offset: int) -> Fixed {
    fx_div(fx_add(highest(d, end - offset, end), lowest(d, end - offset, end)), fx_int(2))
}

/// The chart after the `nb`-th bar, with horizons `t < k < s`, was fed.
pub open spec fn ichimoku_step(
    d: Seq<IchimokuOutput>,
    nb: int,
    t: int,
    k: int,
    s: int,
    close: Fixed,
    high: Fixed,
    low: Fixed,
) -> Seq<IchimokuOutput> {
    let d1 = if nb > s {
        d.subrange(1, d.len() as int).push(empty_output())
    } else {
        d
    };
    if nb < s {
        d1.update(nb - 1, IchimokuOutput { close: Some(close), high: Some(high), low: Some(low), ..d1[nb - 1] })
    } else {
        let d2 = d1.update(
            s - 1,
            IchimokuOutput { close: Some(close), high: Some(high), low: Some(low), ..d1[s - 1] },
        );
        let tenkan = mid_range(d2, s, t);
        let kijun = mid_range(d2, s, k);
        let span_a = fx_div(fx_add(tenkan, kijun), fx_int(2));
        let span_b = mid_range(d2, s, s);
        let d3 = d2.update(
            s - 1,
            IchimokuOutput { tenkan_sen: Some(tenkan), kijun_sen: Some(kijun), ..d2[s - 1] },
        );
        let d4 = d3.update(s - k - 1, IchimokuOutput { chikou_span: Some(close), ..d3[s - k - 1] });
        d4.update(
            s + k - 1,
            IchimokuOutput {
                senkou_span_a: Some(span_a),
                senkou_span_b: Some(span_b),
                kumo_color: Some(
                    if span_a.raw > span_b.raw {
                        KumoColor::Green
                    } else {
                        KumoColor::Red
                    },
                ),
                ..d4[s + k - 1]
            },
        )
    }
}

/// Ichimoku Kinko Hyo: turning, base and leading lines over three horizons,
/// written at their offsets into a window of `kijun + senkou_b` periods.
pub struct Ichimoku {
    tenkan_sen_length: u32,
    kijun_sen_length: u32,
    senkou_span_b_length: u32,
    nb_elemts: u32,
    data: CircularQueue<IchimokuOutput>,
}

impl Ichimoku {
    pub closed spec fn tenkan_len(&self) -> int {
        self.tenkan_sen_length as int
    }

    pub closed spec fn kijun_len(&self) -> int {
        self.kijun_sen_length as int
    }

    pub closed spec fn senkou_b_len(&self) -> int {
        self.senkou_span_b_length as int
    }

    /// Bars fed since construction or reset, counted up to `senkou_b + 1`.
    pub closed spec fn count(&self) -> int {
        self.nb_elemts as int
    }

    /// The periods of the chart, oldest first.
    pub closed spec fn chart(&self) -> Seq<IchimokuOutput> {
        self.data@
    }

    pub closed spec fn wf(&self) -> bool {
        let (t, k, s, nb) = (
            self.tenkan_sen_length as int,
            self.kijun_sen_length as int,
            self.senkou_span_b_length as int,
            self.nb_elemts as int,
        );
        &&& 0 < t < k < s
        &&& self.data.wf()
        &&& self.data@.len() == k + s
        &&& self.data.blank() == empty_output()
        &&& nb <= s + 1
        &&& forall|i: int|
            0 <= i < s && i < nb ==> (#[trigger] self.data@[i]).high is Some && self.data@[i].low is Some
    }

    /// Fails with `InvalidParameter` unless `0 < tenkan < kijun < senkou_b`
    /// and `kijun + senkou_b` fits in a `u32`.
    pub fn new(tenkan_sen_length: u32, kijun_sen_length: u32, senkou_span_b_length: u32) -> (r: Result<Self, Error>)
        ensures
            r is Ok <==> (0 < tenkan_sen_length < kijun_sen_length < senkou_span_b_length
                && kijun_sen_length + senkou_span_b_length <= u32::MAX),
            r matches Err(e) ==> e == Error::InvalidParameter,
            r matches Ok(ich) ==> ich.wf() && ich.tenkan_len() == tenkan_sen_length && ich.kijun_len()
                == kijun_sen_length && ich.senkou_b_len() == senkou_span_b_length && ich.count() == 0
                && ich.chart() == Seq::new((kijun_sen_length + senkou_span_b_length) as nat, |i: int| empty_output()),
    {
        if tenkan_sen_length != 0 && tenkan_sen_length < kijun_sen_length && kijun_sen_length
            < senkou_span_b_length && kijun_sen_length <= u32::MAX - senkou_span_b_length {
            let blank = IchimokuOutput {
                close: None,
                high: None,
                low: None,
                tenkan_sen: None,
                kijun_sen: None,
                senkou_span_a: None,
                senkou_span_b: None,
                chikou_span: None,
                kumo_color: None,
            };
            Ok(Ichimoku {
                tenkan_sen_length,
                kijun_sen_length,
                senkou_span_b_length,
                nb_elemts: 0,
                data: CircularQueue::new(kijun_sen_length + senkou_span_b_length, blank),
            })
        } else {
            Err(Error::InvalidParameter)
        }
    }

    /// The period `idx` places from the oldest one.
    pub fn get(&self, idx: u32) -> (r: IchimokuOutput)
        requires
            self.wf(),
            idx < self.chart().len(),
        ensures
            r == self.chart()[idx as int],
    {
        self.data.get(idx)
    }

    fn get_average(&self, offset: u32) -> (r: Fixed)
        requires
            self.wf(),
            self.nb_elemts >= self.senkou_span_b_length,
            0 < offset <= self.senkou_span_b_length,
        ensures
            r == mid_range(self.data@, self.senkou_span_b_length as int, offset as int),
    {
        let s = self.senkou_span_b_length;
        let lo = s - offset;
        let first = self.data.get(lo);
        let mut high: Fixed = first.high.unwrap();
        let mut low: Fixed = first.low.unwrap();
        let mut i: u32 = lo + 1;
        while i < s
            invariant
                self.wf(),
                self.nb_elemts >= s,
                s == self.senkou_span_b_length,
                lo < i <= s,
                high == highest(self.data@, lo as int, i as int),
                low == lowest(self.data@, lo as int, i as int),
            decreases s - i,
        {
            let item = self.data.get(i);
            let h = item.high.unwrap();
            let l = item.low.unwrap();
            if h.raw > high.raw {
                high = h;
            }
            if l.raw < low.raw {
                low = l;
            }
            i = i + 1;
        }
        high.add(low).div(Fixed::from_u32(2))
    }

    /// Feeds one bar.
    #[verifier::rlimit(40)]
    pub fn next<B: Close + High + Low>(&mut self, input: &B)
        requires
            old(self).wf(),
        ensures
            final(self).wf(),
            final(self).tenkan_len() == old(self).tenkan_len(),
            final(self).kijun_len() == old(self).kijun_len(),
            final(self).senkou_b_len() == old(self).senkou_b_len(),
            final(self).count() == if old(self).count() <= old(self).senkou_b_len() {
                old(self).count() + 1
            } else {
                old(self).count()
            },
            final(self).chart() == ichimoku_step(
                old(self).chart(),
                old(self).count() + 1,
                old(self).tenkan_len(),
                old(self).kijun_len(),
                old(self).senkou_b_len(),
                input.close_of(),
                input.high_of(),
                input.low_of(),
            ),
    {
        let s = self.senkou_span_b_length;
        let k = self.kijun_sen_length;
        let nb = self.nb_elemts + 1;
        if self.nb_elemts <= s {
            self.nb_elemts = nb;
        }
        if nb > s {
            self.data.shl();
        }
        let close = input.close();
        let high = input.high();
        let low = input.low();
        if nb < s {
            let refer = self.data.get(nb - 1);
            self.data.set(nb - 1, IchimokuOutput { close: Some(close), high: Some(high), low: Some(low), ..refer });
        } else {
            let refer = self.data.get(s - 1);
            self.data.set(s - 1, IchimokuOutput { close: Some(close), high: Some(high), low: Some(low), ..refer });
            let tenkan = self.get_average(self.tenkan_sen_length);
            let kijun = self.get_average(k);
            let senkou_span_a = tenkan.add(kijun).div(Fixed::from_u32(2));
            let senkou_span_b = self.get_average(s);
            let refer = self.data.get(s - 1);
            self.data.set(s - 1, IchimokuOutput { tenkan_sen: Some(tenkan), kijun_sen: Some(kijun), ..refer });
            let refer = self.data.get(s - k - 1);
            self.data.set(s - k - 1, IchimokuOutput { chikou_span: Some(close), ..refer });
            let refer = self.data.get(s + k - 1);
            let kumo_color = if senkou_span_a.raw > senkou_span_b.raw {
                KumoColor::Green
            } else {
                KumoColor::Red
            };
            self.data.set(
                s + k - 1,
                IchimokuOutput {
                    senkou_span_a: Some(senkou_span_a),
                    senkou_span_b: Some(senkou_span_b),
                    kumo_color: Some(kumo_color),
                    ..refer
                },
            );
        }
    }

    /// Forgets every bar.
    pub fn reset(&mut self)
        requires
            old(self).wf(),
        ensures
            final(self).wf(),
            final(self).tenkan_len() == old(self).tenkan_len(),
            final(self).kijun_len() == old(self).kijun_len(),
            final(self).senkou_b_len() == old(self).senkou_b_len(),
            final(self).count() == 0,
            final(self).chart() == Seq::new(
                (old(self).kijun_len() + old(self).senkou_b_len()) as nat,
                |i: int| empty_output(),
            ),
    {
        let blank = IchimokuOutput {
            close: None,
            high: None,
            low: None,
            tenkan_sen: None,
            kijun_sen: None,
            senkou_span_a: None,
            senkou_span_b: None,
            chikou_span: None,
            kumo_color: None,
        };
        self.data = CircularQueue::new(self.kijun_sen_length + self.senkou_span_b_length, blank);
        self.nb_elemts = 0;
    }
}

impl Reset for Ichimoku {
    open spec fn valid(&self) -> bool {
        self.wf()
    }

    fn reset(&mut self) {
        Ichimoku::reset(self)
    }
}

impl<'a, B: Close + High + Low> Next<&'a B> for Ichimoku {
    type Output = ();

    fn next(&mut self, input: &'a B) -> (r: ()) {
        Ichimoku::next(self, input)
    }
}

} // verus!

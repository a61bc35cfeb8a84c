//! Price bars: a validated `DataItem` and a plain `Bar`.
use crate::errors::Error;
use crate::fixed::Fixed;
use crate::traits::{Close, High, Low, Open, Volume};
use vstd::prelude::*;

verus! {

/// The constraints a validated bar meets.
pub open spec fn bar_is_valid(open: Fixed, high: Fixed, low: Fixed, close: Fixed, volume: Fixed) -> bool {
    &&& low.raw <= open.raw
    &&& low.raw <= close.raw
    &&& low.raw <= high.raw
    &&& high.raw >= open.raw
    &&& high.raw >= close.raw
    &&& volume.raw >= 0
    &&& low.raw >= 0
}

/// A price bar whose fields were checked by `DataItemBuilder::build`.
#[derive(Clone, Copy, Debug)]
pub struct DataItem {
    open: Fixed,
    high: Fixed,
    low: Fixed,
    close: Fixed,
    volume: Fixed,
}

impl DataItem {
    pub fn builder() -> (r: DataItemBuilder)
        ensures
            r.open is None && r.high is None && r.low is None && r.close is None && r.volume is None,
    {
        DataItemBuilder::new()
    }
}

impl Open for DataItem {
    closed spec fn open_of(&self) -> Fixed {
        self.open
    }

    fn open(&self) -> (r: Fixed) {
        self.open
    }
}

impl Close for DataItem {
    closed spec fn close_of(&self) -> Fixed {
        self.close
    }

    fn close(&self) -> (r: Fixed) {
        self.close
    }
}

impl Low for DataItem {
    closed spec fn low_of(&self) -> Fixed {
        self.low
    }

    fn low(&self) -> (r: Fixed) {
        self.low
    }
}

impl High for DataItem {
    closed spec fn high_of(&self) -> Fixed {
        self.high
    }

    fn high(&self) -> (r: Fixed) {
        self.high
    }
}

impl Volume for DataItem {
    closed spec fn volume_of(&self) -> Fixed {
        self.volume
    }

    fn volume(&self) -> (r: Fixed) {
        self.volume
    }
}

/// Collects the five fields of a `DataItem`, then checks them.
pub struct DataItemBuilder {
    pub open: Option<Fixed>,
    pub high: Option<Fixed>,
    pub low: Option<Fixed>,
    pub close: Option<Fixed>,
    pub volume: Option<Fixed>,
}

impl DataItemBuilder {
    pub fn new() -> (r: Self)
        ensures
            r.open is None && r.high is None && r.low is None && r.close is None && r.volume is None,
    {
        DataItemBuilder { open: None, high: None, low: None, close: None, volume: None }
    }

    pub fn open(self, val: Fixed) -> (r: Self)
        ensures
            r == (DataItemBuilder { open: Some(val), ..self }),
    {
        DataItemBuilder { open: Some(val), ..self }
    }

    pub fn high(self, val: Fixed) -> (r: Self)
        ensures
            r == (DataItemBuilder { high: Some(val), ..self }),
    {
        DataItemBuilder { high: Some(val), ..self }
    }

    pub fn low(self, val: Fixed) -> (r: Self)
        ensures
            r == (DataItemBuilder { low: Some(val), ..self }),
    {
        DataItemBuilder { low: Some(val), ..self }
    }

    pub fn close(self, val: Fixed) -> (r: Self)
        ensures
            r == (DataItemBuilder { close: Some(val), ..self }),
    {
        DataItemBuilder { close: Some(val), ..self }
    }

    pub fn volume(self, val: Fixed) -> (r: Self)
        ensures
            r == (DataItemBuilder { volume: Some(val), ..self }),
    {
        DataItemBuilder { volume: Some(val), ..self }
    }

    /// Fails with `DataItemIncomplete` when a field is missing, else with
    /// `DataItemInvalid` when the fields break `bar_is_valid`.
    pub fn build(self) -> (r: Result<DataItem, Error>)
        ensures
            r is Ok <==> (self.open is Some && self.high is Some && self.low is Some && self.close is Some
                && self.volume is Some && bar_is_valid(
                self.open->0,
                self.high->0,
                self.low->0,
                self.close->0,
                self.volume->0,
            )),
            !(self.open is Some && self.high is Some && self.low is Some && self.close is Some
                && self.volume is Some) <==> r == Err::<DataItem, Error>(Error::DataItemIncomplete),
            r == Err::<DataItem, Error>(Error::DataItemInvalid) <==> (self.open is Some
                && self.high is Some && self.low is Some && self.close is Some
                && self.volume is Some && !bar_is_valid(
                self.open->0,
                self.high->0,
                self.low->0,
                self.close->0,
                self.volume->0,
            )),
            r matches Ok(item) ==> item.open_of() == self.open->0 && item.high_of()
                == self.high->0 && item.low_of() == self.low->0 && item.close_of()
                == self.close->0 && item.volume_of() == self.volume->0,
    {
        match (self.open, self.high, self.low, self.close, self.volume) {
            (Some(open), Some(high), Some(low), Some(close), Some(volume)) => {
                if low.raw <= open.raw && low.raw <= close.raw && low.raw <= high.raw && high.raw
                    >= open.raw && high.raw >= close.raw && volume.raw >= 0 && low.raw >= 0 {
                    Ok(DataItem { open, high, low, close, volume })
                } else {
                    Err(Error::DataItemInvalid)
                }
            },
            _ => Err(Error::DataItemIncomplete),
        }
    }
}

/// A price bar with no checks on its fields; every field starts at zero.
#[derive(Clone, Copy, Debug, PartialEq, Eq, Structural)]
pub struct Bar {
    pub open: Fixed,
    pub high: Fixed,
    pub low: Fixed,
    pub close: Fixed,
    pub volume: Fixed,
}

impl Bar {
    pub fn new() -> (r: Bar)
        ensures
            r.open.raw == 0 && r.high.raw == 0 && r.low.raw == 0 && r.close.raw == 0
                && r.volume.raw == 0,
    {
        let z = Fixed::from_raw(0);
        Bar { open: z, high: z, low: z, close: z, volume: z }
    }

    pub fn open(self, val: Fixed) -> (r: Bar)
        ensures
            r == (Bar { open: val, ..self }),
    {
        Bar { open: val, ..self }
    }

    pub fn high(self, val: Fixed) -> (r: Bar)
        ensures
            r == (Bar { high: val, ..self }),
    {
        Bar { high: val, ..self }
    }

    pub fn low(self, val: Fixed) -> (r: Bar)
        ensures
            r == (Bar { low: val, ..self }),
    {
        Bar { low: val, ..self }
    }

    pub fn close(self, val: Fixed) -> (r: Bar)
        ensures
            r == (Bar { close: val, ..self }),
    {
        Bar { close: val, ..self }
    }

    pub fn volume(self, val: Fixed) -> (r: Bar)
        ensures
            r == (Bar { volume: val, ..self }),
    {
        Bar { volume: val, ..self }
    }
}

impl Open for Bar {
    open spec fn open_of(&self) -> Fixed {
        self.open
    }

    fn open(&self) -> (r: Fixed) {
        self.open
    }
}

impl Close for Bar {
    open spec fn close_of(&self) -> Fixed {
        self.close
    }

    fn close(&self) -> (r: Fixed) {
        self.close
    }
}

impl Low for Bar {
    open spec fn low_of(&self) -> Fixed {
        self.low
    }

    fn low(&self) -> (r: Fixed) {
        self.low
    }
}

impl High for Bar {
    open spec fn high_of(&self) -> Fixed {
        self.high
    }

    fn high(&self) -> (r: Fixed) {
        self.high
    }
}

impl Volume for Bar {
    open spec fn volume_of(&self) -> Fixed {
        self.volume
    }

    fn volume(&self) -> (r: Fixed) {
        self.volume
    }
}

} // verus!

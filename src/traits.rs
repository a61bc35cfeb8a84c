//! The protocol every indicator follows, and read access to the fields of a
//! price bar, one capability per field.
use crate::fixed::Fixed;
use vstd::prelude::*;

verus! {

/// Brings an indicator back to the state its constructor gives; each
/// indicator's own `reset` states that state.
pub trait Reset {
    /// The indicator's invariant.
    spec fn valid(&self) -> bool;

    fn reset(&mut self)
        requires
            old(self).valid(),
        ensures
            final(self).valid(),
    ;
}

/// Consumes one input of type `T`, a bare value or a bar, and returns the
/// indicator's output; each indicator's own `next` or `next_bar` states it.
pub trait Next<T>: Reset {
    type Output;

    fn next(&mut self, input: T) -> (r: Self::Output)
        requires
            old(self).valid(),
        ensures
            final(self).valid(),
    ;
}

/// Opening price of a period.
pub trait Open {
    spec fn open_of(&self) -> Fixed;

    fn open(&self) -> (r: Fixed)
        ensures
            r == self.open_of(),
    ;
}

/// Closing price of a period.
pub trait Close {
    spec fn close_of(&self) -> Fixed;

    fn close(&self) -> (r: Fixed)
        ensures
            r == self.close_of(),
    ;
}

/// Lowest price of a period.
pub trait Low {
    spec fn low_of(&self) -> Fixed;

    fn low(&self) -> (r: Fixed)
        ensures
            r == self.low_of(),
    ;
}

/// Highest price of a period.
pub trait High {
    spec fn high_of(&self) -> Fixed;

    fn high(&self) -> (r: Fixed)
        ensures
            r == self.high_of(),
    ;
}

/// Traded volume of a period.
pub trait Volume {
    spec fn volume_of(&self) -> Fixed;

    fn volume(&self) -> (r: Fixed)
        ensures
            r == self.volume_of(),
    ;
}

} // verus!

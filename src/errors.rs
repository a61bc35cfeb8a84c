use vstd::prelude::*;

verus! {

/// Why a construction was refused.
#[derive(Clone, Copy, Debug, PartialEq, Eq, Structural)]
pub enum Error {
    /// A window length of zero, a non-positive multiplier, or horizons out of order.
    InvalidParameter,
    /// A data item was built with one of its five fields missing.
    DataItemIncomplete,
    /// A data item's fields break the price and volume constraints.
    DataItemInvalid,
}

} // verus!

use crate::fixed::{fx_max, Fixed};
use vstd::prelude::*;

verus! {

fn max(refer: Fixed, other: Fixed) -> (r: Fixed)
    ensures
        r == fx_max(refer, other),
{
    if refer.raw > other.raw {
        refer
    } else {
        other
    }
}

/// Returns the largest of three numbers; among equals, the later one.
pub fn max3(a: Fixed, b: Fixed, c: Fixed) -> (r: Fixed)
    ensures
        r == fx_max(fx_max(a, b), c),
        r.raw >= a.raw && r.raw >= b.raw && r.raw >= c.raw,
        r == a || r == b || r == c,
{
    max(max(a, b), c)
}

} // verus!

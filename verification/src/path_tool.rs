//! The scripting tool's arithmetic helper.

use vstd::prelude::*;

verus! {

/// The sum of the two operands.
pub fn add(left: u64, right: u64) -> (r: u64)
    requires
        left + right <= u64::MAX,
    ensures
        r == left + right,
{
    left + right
}

} // verus!

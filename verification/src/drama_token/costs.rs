//! Nominal costs, in units of a millionth of a point. The ledger accepts any
//! positive amount; these are for the policy that calls it.

use vstd::prelude::*;

verus! {

/// Refreshing a frame: 5 points.
pub const REFRESH_FRAME: u64 = 5_000_000;

/// Skipping an advertisement: 3 points.
pub const SKIP_AD: u64 = 3_000_000;

/// Generating a custom frame: 10 points.
pub const CUSTOM_FRAME: u64 = 10_000_000;

} // verus!

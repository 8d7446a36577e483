//! Nominal rewards, in units of a millionth of a point. The ledger accepts
//! any positive amount; these are for the policy that calls it.

use vstd::prelude::*;

verus! {

/// Confirming a story node: 10 points.
pub const CONFIRM_NODE: u64 = 10_000_000;

/// Creating an asset: 5 points.
pub const CREATE_ASSET: u64 = 5_000_000;

/// Watching an advertisement: 2 points.
pub const WATCH_AD: u64 = 2_000_000;

} // verus!

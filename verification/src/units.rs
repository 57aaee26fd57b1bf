//! Fixed-point units.
//!
//! Similarities, thresholds and embedding components are counted in
//! millionths: the integer `1_000_000` stands for `1.0`.  Money spent is
//! counted in cost units of one hundred-millionth of a dollar, which makes the
//! per-token prices whole numbers.  Money saved is counted in cents.

use vstd::prelude::*;

verus! {

/// The number one, in millionths.
pub const SCALE: i64 = 1_000_000;

/// Number of cost units in one dollar.
pub const COST_UNITS_PER_DOLLAR: u128 = 100_000_000;

} // verus!

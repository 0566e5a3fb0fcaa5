//! Fixed parameters of the program.
use vstd::prelude::*;

verus! {

/// Smallest target, in whole tokens of the mint.
pub const MIN_AMOUNT_TO_RAISE: u64 = 3;

/// Seconds in a day.
pub const SECONDS_TO_DAYS: i64 = 86_400;

/// A contributor may give at most the target divided by this.
pub const MAX_CONTRIBUTION_DENOMINATOR: u64 = 10;

/// Rent-exempt balance of a fundraiser account: (128 + 90 bytes) at 6 960
/// lamports per byte.
pub const FUNDRAISER_RENT_EXEMPT: u64 = 1_517_280;

/// Rent-exempt balance of a contributor account: (128 + 8 bytes) at 6 960
/// lamports per byte.
pub const CONTRIBUTOR_RENT_EXEMPT: u64 = 946_560;

} // verus!

//! Time and fee constants shared by the SDK.

use vstd::prelude::*;

verus! {

/// Seconds in a registration year.
pub const YEAR_SECONDS: u64 = 31_536_000;

/// Seconds after expiry during which the former owner can still renew.
pub const GRACE_PERIOD_SECONDS: u64 = 2_592_000;

/// The reference instant of the mock ledger data.
pub const MOCK_REFERENCE_TIMESTAMP: u64 = 1_682_200_000;

/// Seconds in a year, as the mock data counts them.
pub const SECONDS_PER_YEAR: u64 = 31_536_000;

/// Renewal fee per year.
pub const BASE_FEE_PER_YEAR: u64 = 10;

/// Flat network fee charged on a renewal.
pub const NETWORK_FEE: u64 = 1;

/// The currency in which fees are quoted.
pub const DEFAULT_FEE_CURRENCY: &'static str = "XLM";

} // verus!

//! Registration pricing and the saturating arithmetic it uses.

use vstd::prelude::*;

verus! {

/// The annual registration price of a label whose trimmed UTF-8 form is
/// `len` bytes long: short labels cost more.
pub open spec fn label_price(len: nat) -> u64 {
    if len <= 3 {
        1_000_000_000
    } else if len <= 6 {
        250_000_000
    } else {
        100_000_000
    }
}

/// `a * b`, capped at `u64::MAX`.
pub open spec fn sat_mul(a: u64, b: u64) -> u64 {
    if a * b > u64::MAX {
        u64::MAX
    } else {
        (a * b) as u64
    }
}

/// `a + b`, capped at `u64::MAX`.
pub open spec fn sat_add(a: u64, b: u64) -> u64 {
    if a + b > u64::MAX {
        u64::MAX
    } else {
        (a + b) as u64
    }
}

/// The registrar's annual price for a label of `length` bytes.
pub fn price_for_label_length(length: usize) -> (p: u64)
    ensures
        p == label_price(length as nat),
{
    if length <= 3 {
        1_000_000_000
    } else if length <= 6 {
        250_000_000
    } else {
        100_000_000
    }
}

/// Multiplication that stops at `u64::MAX` instead of overflowing.
pub fn saturating_mul(a: u64, b: u64) -> (r: u64)
    ensures
        r == sat_mul(a, b),
{
    match a.checked_mul(b) {
        Some(v) => v,
        None => u64::MAX,
    }
}

/// Addition that stops at `u64::MAX` instead of overflowing.
pub fn saturating_add(a: u64, b: u64) -> (r: u64)
    ensures
        r == sat_add(a, b),
{
    a.saturating_add(b)
}

} // verus!

//! Saturating and clamped arithmetic shared by the resource ledger and the
//! game-level pressure gauges.

use vstd::prelude::*;

verus! {

/// Saturating addition on `u64`: clamps at `u64::MAX` instead of wrapping.
pub open spec fn spec_sat_add64(a: u64, b: u64) -> u64 {
    if a + b > u64::MAX {
        u64::MAX
    } else {
        (a + b) as u64
    }
}

pub fn sat_add64(a: u64, b: u64) -> (r: u64)
    ensures
        r == spec_sat_add64(a, b),
{
    if a <= u64::MAX - b {
        a + b
    } else {
        u64::MAX
    }
}

/// Saturating subtraction on `u32`: clamps at zero instead of wrapping.
pub open spec fn spec_sat_sub32(a: u32, b: u32) -> u32 {
    if a >= b {
        (a - b) as u32
    } else {
        0
    }
}

pub fn sat_sub32(a: u32, b: u32) -> (r: u32)
    ensures
        r == spec_sat_sub32(a, b),
{
    if a >= b {
        a - b
    } else {
        0
    }
}

/// Saturating subtraction on `u16`: clamps at zero instead of wrapping.
pub open spec fn spec_sat_sub16(a: u16, b: u16) -> u16 {
    if a >= b {
        (a - b) as u16
    } else {
        0
    }
}

pub fn sat_sub16(a: u16, b: u16) -> (r: u16)
    ensures
        r == spec_sat_sub16(a, b),
{
    if a >= b {
        a - b
    } else {
        0
    }
}

/// Addition capped from above: the least of `a + b` and `cap`.
pub open spec fn spec_cap_add32(a: u32, b: u32, cap: u32) -> u32 {
    if a + b > cap {
        cap
    } else {
        (a + b) as u32
    }
}

pub fn cap_add32(a: u32, b: u32, cap: u32) -> (r: u32)
    ensures
        r == spec_cap_add32(a, b, cap),
{
    let sum: u64 = a as u64 + b as u64;
    if sum > cap as u64 {
        cap
    } else {
        sum as u32
    }
}

/// Addition on `u16` capped from above: the least of `a + b` and `cap`.
pub open spec fn spec_cap_add16(a: u16, b: u16, cap: u16) -> u16 {
    if a + b > cap {
        cap
    } else {
        (a + b) as u16
    }
}

pub fn cap_add16(a: u16, b: u16, cap: u16) -> (r: u16)
    ensures
        r == spec_cap_add16(a, b, cap),
{
    let sum: u32 = a as u32 + b as u32;
    if sum > cap as u32 {
        cap
    } else {
        sum as u16
    }
}

/// A pressure level held to the range 0..=100.
pub open spec fn spec_clamp_level(v: int) -> int {
    if v < 0 {
        0
    } else if v > 100 {
        100
    } else {
        v
    }
}

/// Applies a signed delta to a 0..=100 level, clamping the result to the range.
pub fn apply_level_delta(level: u8, delta: i8) -> (r: u8)
    ensures
        r == spec_clamp_level(level + delta),
{
    let v: i16 = level as i16 + delta as i16;
    if v < 0 {
        0
    } else if v > 100 {
        100
    } else {
        v as u8
    }
}

/// Equality of two optional identity keys.
pub fn opt_key_eq(a: Option<u64>, b: Option<u64>) -> (r: bool)
    ensures
        r == (a == b),
{
    match (a, b) {
        (Some(x), Some(y)) => x == y,
        (None, None) => true,
        _ => false,
    }
}

} // verus!

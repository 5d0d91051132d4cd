//! Conversion between a hub percentage and a device-native speed code.
//!
//! Both directions are affine maps between `[0, 100]` and `[min, max]`,
//! rounded to the nearest integer with halves rounded up.

use vstd::prelude::*;
use crate::capability::IntegerRange;

verus! {

/// A percentage as the converter reads it: anything above 100 counts as 100.
pub open spec fn spec_clamp_percent(percent: int) -> int {
    if percent < 0 {
        0
    } else if percent > 100 {
        100
    } else {
        percent
    }
}

/// The native code for `percent` on `[min, max]`: the nearest point of the
/// range to `min + percent * (max - min) / 100`.
pub open spec fn spec_from_percent(percent: int, min: int, max: int) -> int {
    min + (spec_clamp_percent(percent) * (max - min) + 50) / 100
}

/// A native code as the converter reads it: pulled into `[min, max]`.
pub open spec fn spec_clamp_code(code: int, min: int, max: int) -> int {
    if code < min {
        min
    } else if code > max {
        max
    } else {
        code
    }
}

/// The percentage for `code` on `[min, max]`: the nearest integer to
/// `(code - min) * 100 / (max - min)`, and 0 on a range of a single code.
pub open spec fn spec_to_percent(code: int, min: int, max: int) -> int {
    if max <= min {
        0
    } else {
        ((spec_clamp_code(code, min, max) - min) * 100 + (max - min) / 2) / (max - min)
    }
}

/// The absolute difference of two integers.
pub open spec fn spec_distance(a: int, b: int) -> int {
    if a <= b {
        b - a
    } else {
        a - b
    }
}

proof fn lemma_scaled_quotient_bounds(p: int, w: int)
    requires
        0 <= p <= 100,
        0 <= w,
    ensures
        0 <= (p * w + 50) / 100 <= w,
        100 * ((p * w + 50) / 100) <= p * w + 50,
        p * w + 50 < 100 * ((p * w + 50) / 100) + 100,
        0 <= p * w <= 100 * w,
{
    assert(0 <= p * w <= 100 * w) by (nonlinear_arith)
        requires
            0 <= p <= 100,
            0 <= w,
    ;
}

proof fn lemma_percent_quotient_bounds(d: int, w: int)
    requires
        0 <= d <= w,
        0 < w,
    ensures
        0 <= (d * 100 + w / 2) / w <= 100,
        w * ((d * 100 + w / 2) / w) <= d * 100 + w / 2,
        d * 100 + w / 2 < w * ((d * 100 + w / 2) / w) + w,
{
    let n = d * 100 + w / 2;
    let q = n / w;
    assert(w * q <= n && n < w * q + w && 0 <= q) by (nonlinear_arith)
        requires
            0 < w,
            0 <= n,
            q == n / w,
    ;
    assert(q <= 100) by (nonlinear_arith)
        requires
            w * q <= n,
            n == d * 100 + w / 2,
            0 <= d <= w,
            0 < w,
    ;
}

/// A speed as the device encodes it.
#[derive(Clone, Copy, Debug)]
pub struct TargetSpeed {
    code: u32,
}

impl TargetSpeed {
    /// The native code held.
    pub closed spec fn view(&self) -> int {
        self.code as int
    }

    /// Wraps a native code as it stands.
    pub fn from_code(code: u32) -> (r: TargetSpeed)
        ensures
            r@ == code,
    {
        TargetSpeed { code }
    }

    /// Converts a percentage to the native code on `range`. Zero gives the
    /// lower bound and 100 the upper one; a percentage above 100 counts as 100.
    pub fn from_percent(percent: u8, range: &IntegerRange) -> (r: TargetSpeed)
        ensures
            r@ == spec_from_percent(percent as int, range.spec_min(), range.spec_max()),
            range.spec_min() <= r@ <= range.spec_max(),
            percent == 0 ==> r@ == range.spec_min(),
            percent >= 100 ==> r@ == range.spec_max(),
    {
        let min: u32 = range.min();
        let max: u32 = range.max();
        let p: u64 = if percent > 100 {
            100
        } else {
            percent as u64
        };
        let width: u64 = (max - min) as u64;
        proof {
            lemma_scaled_quotient_bounds(p as int, width as int);
            lemma_bounds_convert_exactly(min as int, max as int);
        }
        let steps: u64 = (p * width + 50) / 100;
        TargetSpeed { code: min + (steps as u32) }
    }

    /// Converts the native code back to a percentage on `range`. A code
    /// outside the range counts as the nearest bound.
    pub fn as_percent(&self, range: &IntegerRange) -> (r: u8)
        ensures
            r == spec_to_percent(self@, range.spec_min(), range.spec_max()),
            r <= 100,
            range.spec_min() < range.spec_max() && self@ <= range.spec_min() ==> r == 0,
            range.spec_min() < range.spec_max() && self@ >= range.spec_max() ==> r == 100,
    {
        let min: u32 = range.min();
        let max: u32 = range.max();
        if max <= min {
            return 0;
        }
        let code: u32 = if self.code < min {
            min
        } else if self.code > max {
            max
        } else {
            self.code
        };
        let width: u64 = (max - min) as u64;
        let offset: u64 = (code - min) as u64;
        proof {
            lemma_percent_quotient_bounds(offset as int, width as int);
            lemma_bounds_convert_exactly(min as int, max as int);
        }
        let percent: u64 = (offset * 100 + width / 2) / width;
        percent as u8
    }

    /// The native code.
    pub fn into_inner(self) -> (r: u32)
        ensures
            r == self@,
    {
        self.code
    }
}

/// A larger percentage never gives a smaller native code.
pub proof fn lemma_from_percent_monotonic(p1: int, p2: int, min: int, max: int)
    requires
        p1 <= p2,
        min <= max,
    ensures
        spec_from_percent(p1, min, max) <= spec_from_percent(p2, min, max),
{
    let w = max - min;
    let a = spec_clamp_percent(p1);
    let b = spec_clamp_percent(p2);
    assert(a * w <= b * w) by (nonlinear_arith)
        requires
            a <= b,
            0 <= w,
    ;
}

/// A larger native code never gives a smaller percentage.
pub proof fn lemma_to_percent_monotonic(c1: int, c2: int, min: int, max: int)
    requires
        c1 <= c2,
        min <= max,
    ensures
        spec_to_percent(c1, min, max) <= spec_to_percent(c2, min, max),
{
    if min < max {
        let w = max - min;
        let a = (spec_clamp_code(c1, min, max) - min) * 100 + w / 2;
        let b = (spec_clamp_code(c2, min, max) - min) * 100 + w / 2;
        assert(a / w <= b / w) by (nonlinear_arith)
            requires
                a <= b,
                0 < w,
        ;
    }
}

/// Both ends of the scale convert exactly, in both directions.
pub proof fn lemma_bounds_convert_exactly(min: int, max: int)
    requires
        min <= max,
    ensures
        spec_from_percent(0, min, max) == min,
        spec_from_percent(100, min, max) == max,
        min < max ==> spec_to_percent(min, min, max) == 0,
        min < max ==> spec_to_percent(max, min, max) == 100,
{
    let w = max - min;
    lemma_scaled_quotient_bounds(0, w);
    lemma_scaled_quotient_bounds(100, w);
    assert(0 * w == 0);
    if min < max {
        lemma_percent_quotient_bounds(0, w);
        lemma_percent_quotient_bounds(w, w);
        assert((0 * 100 + w / 2) / w == 0) by (nonlinear_arith)
            requires
                0 < w,
        ;
        assert((w * 100 + w / 2) / w == 100) by (nonlinear_arith)
            requires
                0 < w,
        ;
    }
}

/// On a range of at most 100 native steps no two codes share a percentage:
/// converting a code of the range to a percentage and back gives the code.
pub proof fn lemma_code_round_trip(code: int, min: int, max: int)
    requires
        min <= code <= max,
        max - min <= 100,
    ensures
        spec_from_percent(spec_to_percent(code, min, max), min, max) == code,
{
    let w = max - min;
    if w == 0 {
        lemma_bounds_convert_exactly(min, max);
    } else {
        let d = code - min;
        lemma_percent_quotient_bounds(d, w);
        let q = (d * 100 + w / 2) / w;
        assert(spec_to_percent(code, min, max) == q);
        assert(spec_clamp_percent(q) == q);
        lemma_scaled_quotient_bounds(q, w);
        let k = (q * w + 50) / 100;
        assert(q * w == w * q) by (nonlinear_arith);
        // w*q is within w/2 of 100*d, and w/2 is at most 50
        assert(100 * d <= q * w + 50);
        assert(q * w + 50 < 100 * d + 100) by {
            if w == 100 {
                assert(100 * q <= d * 100 + 50);
                assert(q <= d);
            }
        }
        assert(k == d);
    }
}

/// Converting a percentage to a native code and back recovers it within one
/// unit of rounding in each direction: half a percent from the second
/// rounding, and half a native step, which is `100 / (max - min)` percent
/// wide, from the first.
pub proof fn lemma_round_trip_error(percent: int, min: int, max: int)
    requires
        0 <= percent <= 100,
        min < max,
    ensures
        ({
            let back = spec_to_percent(spec_from_percent(percent, min, max), min, max);
            2 * (max - min) * spec_distance(back, percent) <= 100 + (max - min)
        }),
{
    let w = max - min;
    lemma_scaled_quotient_bounds(percent, w);
    let k = (percent * w + 50) / 100;
    let code = min + k;
    assert(spec_from_percent(percent, min, max) == code);
    assert(spec_clamp_code(code, min, max) == code);
    lemma_percent_quotient_bounds(k, w);
    let q = (k * 100 + w / 2) / w;
    assert(spec_to_percent(code, min, max) == q);
    let h = w / 2;
    assert(2 * h <= w && w <= 2 * h + 1);
    // 100k - 50 <= p*w <= 100k + 49 ; w*q - h <= 100k < w*q - h + w
    assert(w * q - percent * w <= 50 + h);
    assert(percent * w - w * q <= 49 + w - h);
    if q <= percent {
        assert(w * (percent - q) == percent * w - w * q) by (nonlinear_arith);
        assert(2 * w * (percent - q) == 2 * (w * (percent - q))) by (nonlinear_arith);
    } else {
        assert(w * (q - percent) == w * q - percent * w) by (nonlinear_arith);
        assert(2 * w * (q - percent) == 2 * (w * (q - percent))) by (nonlinear_arith);
    }
}

/// On a range of at least 34 native steps the round trip recovers every
/// percentage within one.
pub proof fn lemma_round_trip_within_one(percent: int, min: int, max: int)
    requires
        0 <= percent <= 100,
        max - min >= 34,
    ensures
        spec_distance(spec_to_percent(spec_from_percent(percent, min, max), min, max), percent)
            <= 1,
{
    lemma_round_trip_error(percent, min, max);
    let w = max - min;
    let d = spec_distance(spec_to_percent(spec_from_percent(percent, min, max), min, max), percent);
    assert(d <= 1) by (nonlinear_arith)
        requires
            2 * w * d <= 100 + w,
            w >= 34,
            0 <= d,
    ;
}

} // verus!

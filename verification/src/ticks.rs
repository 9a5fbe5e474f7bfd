use vstd::prelude::*;

verus! {

/// `value` clamped into the servo position range `0..=4095`.
pub open spec fn clamp_ticks(value: int) -> int {
    if value < 0 { 0 } else if value > 4095 { 4095 } else { value }
}

/// `x` rounded to the nearest integer, halves rounded up.
pub open spec fn round_half_up(numerator: int, denominator: int) -> int
    recommends
        denominator > 0,
{
    (2 * numerator + denominator) / (2 * denominator)
}

/// `ratio_permille` limited to `0..=1000`.
pub open spec fn clamp_permille(ratio_permille: int) -> int {
    if ratio_permille > 1000 { 1000 } else { ratio_permille }
}

/// The tick value a fraction `ratio_permille / 1000` of the way from
/// `start_ticks` to `end_ticks`, rounded to the nearest tick (halves away
/// from zero, which for these non-negative positions is up) and kept within
/// `0..=4095`.
pub open spec fn spec_interpolate_ticks(start_ticks: int, end_ticks: int, ratio_permille: int) -> int {
    let r = clamp_permille(ratio_permille);
    clamp_ticks(round_half_up(start_ticks * 1000 + (end_ticks - start_ticks) * r, 1000))
}

/// The position `ratio_permille / 1000` of the way from `start_ticks` to
/// `end_ticks` (the ratio is capped at one), rounded to the nearest tick.
pub fn interpolate_ticks(start_ticks: u16, end_ticks: u16, ratio_permille: u16) -> (ticks: u16)
    ensures
        ticks == spec_interpolate_ticks(start_ticks as int, end_ticks as int, ratio_permille as int),
        ticks <= 4095,
{
    let r: i64 = if ratio_permille > 1000 { 1000 } else { ratio_permille as i64 };
    let start = start_ticks as i64;
    let end = end_ticks as i64;
    assert(-65535 * 1000 <= (end - start) * r <= 65535 * 1000) by (nonlinear_arith)
        requires
            -65535 <= end - start <= 65535,
            0 <= r <= 1000,
    ;
    let scaled: i64 = start * 1000 + (end - start) * r;
    if 2 * scaled + 1000 < 0 {
        proof {
            assert(round_half_up(scaled as int, 1000) < 0);
        }
        return 0;
    }
    let rounded: i64 = (2 * scaled + 1000) / 2000;
    assert(rounded == round_half_up(scaled as int, 1000));
    if rounded > 4095 {
        4095
    } else {
        rounded as u16
    }
}

/// The absolute difference of two tick values.
pub fn abs_diff_ticks(a: u16, b: u16) -> (d: u16)
    ensures
        d as int == if a >= b { a - b } else { b - a },
{
    if a >= b { a - b } else { b - a }
}

/// Interpolation starts exactly at the start position and, once the ratio
/// reaches one, ends exactly at the end position.
pub proof fn lemma_interpolate_endpoints(start_ticks: int, end_ticks: int, ratio_permille: int)
    requires
        0 <= start_ticks <= 4095,
        0 <= end_ticks <= 4095,
    ensures
        spec_interpolate_ticks(start_ticks, end_ticks, 0) == start_ticks,
        ratio_permille >= 1000 ==> spec_interpolate_ticks(start_ticks, end_ticks, ratio_permille) == end_ticks,
{
    assert((2 * (start_ticks * 1000 + (end_ticks - start_ticks) * 0) + 1000) / 2000 == start_ticks) by (nonlinear_arith)
        requires
            0 <= start_ticks <= 4095,
    ;
    assert((2 * (start_ticks * 1000 + (end_ticks - start_ticks) * 1000) + 1000) / 2000 == end_ticks) by (nonlinear_arith)
        requires
            0 <= end_ticks <= 4095,
    ;
}

/// An interpolated position never leaves the range between its endpoints.
pub proof fn lemma_interpolate_between(start_ticks: int, end_ticks: int, ratio_permille: int)
    requires
        0 <= start_ticks <= 4095,
        0 <= end_ticks <= 4095,
        0 <= ratio_permille,
    ensures
        start_ticks <= end_ticks ==> start_ticks <= spec_interpolate_ticks(start_ticks, end_ticks, ratio_permille) <= end_ticks,
        end_ticks <= start_ticks ==> end_ticks <= spec_interpolate_ticks(start_ticks, end_ticks, ratio_permille) <= start_ticks,
{
    let r = clamp_permille(ratio_permille);
    let scaled = start_ticks * 1000 + (end_ticks - start_ticks) * r;
    if start_ticks <= end_ticks {
        assert(start_ticks * 1000 <= scaled <= end_ticks * 1000) by (nonlinear_arith)
            requires
                scaled == start_ticks * 1000 + (end_ticks - start_ticks) * r,
                start_ticks <= end_ticks,
                0 <= r <= 1000,
        ;
    } else {
        assert(end_ticks * 1000 <= scaled <= start_ticks * 1000) by (nonlinear_arith)
            requires
                scaled == start_ticks * 1000 + (end_ticks - start_ticks) * r,
                end_ticks <= start_ticks,
                0 <= r <= 1000,
        ;
    }
    let lo = if start_ticks <= end_ticks { start_ticks } else { end_ticks };
    let hi = if start_ticks <= end_ticks { end_ticks } else { start_ticks };
    assert(lo <= round_half_up(scaled, 1000) <= hi) by (nonlinear_arith)
        requires
            lo * 1000 <= scaled <= hi * 1000,
            0 <= lo,
    ;
}

} // verus!

//! The absolute-position scrollbar mapping. The control spans the full
//! 32-bit range; its value is inverted so the top of the track is line 0,
//! and the ratio against `SCROLL_MAX / total_lines` is rounded to the
//! nearest line. The mapping is invertible up to rounding: the round trip
//! line -> value -> line moves by at most one line.

use vstd::prelude::*;

verus! {

use vstd::arithmetic::div_mod::lemma_fundamental_div_mod;
use vstd::arithmetic::mul::{lemma_mul_inequality, lemma_mul_is_commutative};

/// The top of the scrollbar's control range.
pub const SCROLL_MAX: u32 = u32::MAX;

/// `a / b` rounded to the nearest integer, halves rounding up.
pub open spec fn spec_round_div(a: int, b: int) -> int
    recommends
        b > 0,
{
    (2 * a + b) / (2 * b)
}

/// The line a control value picks: the inverted value, scaled from the
/// control's range to the file's line range, rounded to the nearest line.
/// An empty file (no whole line) always picks line 0.
pub open spec fn spec_line_for_scroll(value: int, total_lines: int) -> int {
    if total_lines == 0 {
        0
    } else {
        spec_round_div((SCROLL_MAX - value) * total_lines, SCROLL_MAX as int)
    }
}

/// The control value that shows a line: the line scaled from the file's
/// line range to the control's range, rounded to the nearest step, then
/// inverted so line 0 sits at the top of the track.
pub open spec fn spec_scroll_for_line(line: int, total_lines: int) -> int {
    if total_lines == 0 {
        SCROLL_MAX as int
    } else {
        SCROLL_MAX - spec_round_div(line * SCROLL_MAX, total_lines)
    }
}

/// The quotient `spec_round_div(a, b)` misses `a / b` by at most half:
/// `|2a - 2bq| <= b`.
proof fn lemma_round_div_bounds(a: int, b: int)
    requires
        0 <= a,
        0 < b,
    ensures
        2 * b * spec_round_div(a, b) <= 2 * a + b,
        2 * a - b <= 2 * b * spec_round_div(a, b),
        0 <= spec_round_div(a, b),
{
    lemma_fundamental_div_mod(2 * a + b, 2 * b);
}

/// The line the inverted, scaled and rounded control value picks; never
/// past the last line.
pub fn line_for_scroll(value: u32, total_lines: u64) -> (line: u64)
    ensures
        line as int == spec_line_for_scroll(value as int, total_lines as int),
        line <= total_lines,
{
    if total_lines == 0 {
        return 0;
    }
    let m: u128 = SCROLL_MAX as u128;
    proof {
        vstd::arithmetic::mul::lemma_mul_upper_bound(
            (SCROLL_MAX - value) as int,
            u32::MAX as int,
            total_lines as int,
            u64::MAX as int,
        );
    }
    let a: u128 = ((SCROLL_MAX - value) as u128) * (total_lines as u128);
    let r: u128 = (2 * a + m) / (2 * m);
    proof {
        let ai = a as int;
        let mi = m as int;
        let ti = total_lines as int;
        lemma_round_div_bounds(ai, mi);
        lemma_mul_inequality((SCROLL_MAX - value) as int, SCROLL_MAX as int, ti);
        lemma_round_div_bounds(mi * ti, mi);
        lemma_mul_is_commutative(mi, ti);
        assert(spec_round_div(ai, mi) <= ti) by (nonlinear_arith)
            requires
                0 < mi,
                0 <= ai,
                ai <= mi * ti,
                2 * mi * spec_round_div(ai, mi) <= 2 * ai + mi,
        {}
    }
    r as u64
}

/// The control value that shows `line`, among `total_lines` whole lines.
pub fn scroll_for_line(line: u64, total_lines: u64) -> (value: u32)
    requires
        line <= total_lines,
    ensures
        value as int == spec_scroll_for_line(line as int, total_lines as int),
{
    if total_lines == 0 {
        return SCROLL_MAX;
    }
    let t: u128 = total_lines as u128;
    proof {
        vstd::arithmetic::mul::lemma_mul_upper_bound(
            line as int,
            u64::MAX as int,
            SCROLL_MAX as int,
            u32::MAX as int,
        );
    }
    let a: u128 = (line as u128) * (SCROLL_MAX as u128);
    let r: u128 = (2 * a + t) / (2 * t);
    proof {
        let ai = a as int;
        let ti = t as int;
        let mi = SCROLL_MAX as int;
        lemma_round_div_bounds(ai, ti);
        lemma_mul_inequality(line as int, ti, mi);
        assert(spec_round_div(ai, ti) <= mi) by (nonlinear_arith)
            requires
                0 < ti,
                0 <= ai,
                ai <= ti * mi,
                2 * ti * spec_round_div(ai, ti) <= 2 * ai + ti,
        {}
    }
    SCROLL_MAX - (r as u32)
}

/// Law: mapping a line to its scrollbar value and back recovers the line
/// within one, whenever the file's total line count fits the control's
/// range.
pub proof fn lemma_scroll_round_trip(line: int, total_lines: int)
    requires
        0 <= line <= total_lines,
        total_lines <= SCROLL_MAX as int,
    ensures
        spec_line_for_scroll(spec_scroll_for_line(line, total_lines), total_lines) >= line - 1,
        spec_line_for_scroll(spec_scroll_for_line(line, total_lines), total_lines) <= line + 1,
{
    if total_lines == 0 {
        assert(spec_line_for_scroll(spec_scroll_for_line(0, 0), 0) == 0);
    } else {
        let m = SCROLL_MAX as int;
        let t = total_lines;
        let u = spec_round_div(line * m, t);
        let back = spec_round_div(u * t, m);
        assert(spec_scroll_for_line(line, t) == m - u);
        assert((m - (m - u)) * t == u * t);
        assert(spec_line_for_scroll(m - u, t) == back);

        lemma_mul_inequality(line, t, m);
        lemma_mul_is_commutative(line, m);
        lemma_mul_is_commutative(t, m);
        lemma_round_div_bounds(line * m, t);
        assert(0 <= u * t) by (nonlinear_arith)
            requires
                0 <= u,
                0 < t,
        {}
        lemma_round_div_bounds(u * t, m);
        // 2tu approximates 2*line*m within t, and 2m*back approximates
        // 2*u*t within m; t <= m chains the two into |back - line| <= 1.
        assert(line - 1 <= back <= line + 1) by (nonlinear_arith)
            requires
                0 < t <= m,
                2 * t * u <= 2 * (line * m) + t,
                2 * (line * m) - t <= 2 * t * u,
                2 * m * back <= 2 * (u * t) + m,
                2 * (u * t) - m <= 2 * m * back,
        {}
    }
}

} // verus!

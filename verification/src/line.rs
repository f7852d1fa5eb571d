//! Sampling a straight segment between two raster positions.
//!
//! A segment is sampled at equal parameter steps, one sample for each unit
//! of its larger extent, starting at its first end point; the second end
//! point is the sample that would follow the last one.

use vstd::arithmetic::div_mod::lemma_fundamental_div_mod_converse;
use vstd::prelude::*;

verus! {

/// The larger of the horizontal and the vertical extent of a segment.
pub open spec fn line_steps(x1: int, y1: int, x2: int, y2: int) -> int {
    let dx = if x2 >= x1 {
        x2 - x1
    } else {
        x1 - x2
    };
    let dy = if y2 >= y1 {
        y2 - y1
    } else {
        y1 - y2
    };
    if dx >= dy {
        dx
    } else {
        dy
    }
}

/// The number of samples taken along a segment: one for each unit of its
/// larger extent, and a single one where both end points coincide.
pub open spec fn line_count(x1: int, y1: int, x2: int, y2: int) -> int {
    if line_steps(x1, y1, x2, y2) == 0 {
        1
    } else {
        line_steps(x1, y1, x2, y2)
    }
}

/// `from + delta * i / steps`, rounded to the nearest integer, halves upwards.
pub open spec fn interpolate(from: int, delta: int, i: int, steps: int) -> int {
    from + (2 * delta * i + steps) / (2 * steps)
}

/// The `i`-th sample of a segment: the point that lies `i` of
/// `line_steps` equal parts along the way from the first end point to the
/// second, each coordinate rounded to the nearest integer.
pub open spec fn line_point(x1: int, y1: int, x2: int, y2: int, i: int) -> (int, int) {
    let steps = line_steps(x1, y1, x2, y2);
    if steps == 0 {
        (x1, y1)
    } else {
        (interpolate(x1, x2 - x1, i, steps), interpolate(y1, y2 - y1, i, steps))
    }
}

/// The distance between two coordinates.
fn extent(a: u32, b: u32) -> (d: u32)
    ensures
        d == if b >= a { b - a } else { a - b },
{
    if b >= a {
        b - a
    } else {
        a - b
    }
}

/// The number of samples of the segment from `(x1, y1)` to `(x2, y2)`.
pub fn line_length(x1: u32, y1: u32, x2: u32, y2: u32) -> (n: u32)
    ensures
        n == line_count(x1 as int, y1 as int, x2 as int, y2 as int),
        n >= 1,
{
    let dx = extent(x1, x2);
    let dy = extent(y1, y2);
    let steps = if dx >= dy { dx } else { dy };
    if steps == 0 {
        1
    } else {
        steps
    }
}

/// Rounding a quotient whose numerator is at most half the divisor above
/// zero: `(steps - t) / (2 * steps)` is the negation of `t / (2 * steps)`
/// rounded to the nearest integer, halves downwards.
proof fn lemma_round_down(t: int, steps: int)
    requires
        t >= 0,
        steps > 0,
    ensures
        (steps - t) / (2 * steps) == -((t + steps - 1) / (2 * steps)),
{
    let d = 2 * steps;
    let q = (t + steps - 1) / d;
    let r = (t + steps - 1) % d;
    assert(t + steps - 1 == d * q + r && 0 <= r < d) by {
        vstd::arithmetic::div_mod::lemma_fundamental_div_mod(t + steps - 1, d);
        vstd::arithmetic::div_mod::lemma_mod_bound(t + steps - 1, d);
    }
    assert(steps - t == (-q) * d + (d - 1 - r)) by (nonlinear_arith)
        requires
            t + steps - 1 == d * q + r,
            d == 2 * steps,
    ;
    lemma_fundamental_div_mod_converse(steps - t, d, -q, d - 1 - r);
}

/// One coordinate of a sample: `from + (to - from) * i / steps`, rounded to
/// the nearest integer.
fn interpolate_coordinate(from: u32, to: u32, i: u32, steps: u32) -> (r: u32)
    requires
        steps > 0,
        i < steps,
        from <= to ==> to - from <= steps,
        to <= from ==> from - to <= steps,
    ensures
        r == interpolate(from as int, to - from, i as int, steps as int),
{
    let a: u128 = extent(from, to) as u128;
    let k: u128 = i as u128;
    let s: u128 = steps as u128;
    assert(a * k <= 0xffff_ffff * 0xffff_ffff) by (nonlinear_arith)
        requires
            a <= 0xffff_ffff,
            k <= 0xffff_ffff,
    ;
    let t: u128 = 2 * (a * k);
    assert(t + s < 2 * s * (a + 1)) by (nonlinear_arith)
        requires
            t == 2 * (a * k),
            k < s,
            s > 0,
            a >= 0,
    ;
    assert(2 * s * (a + 1) <= 2 * 0xffff_ffff * 0x1_0000_0000) by (nonlinear_arith)
        requires
            s <= 0xffff_ffff,
            a <= 0xffff_ffff,
    ;
    if to >= from {
        let q: u128 = (t + s) / (2 * s);
        assert(q <= a) by (nonlinear_arith)
            requires
                q == (t + s) / (2 * s),
                t + s < 2 * s * (a + 1),
                s > 0,
        ;
        assert(2 * (to - from) * i == t) by (nonlinear_arith)
            requires
                t == 2 * (a * k),
                a == to - from,
                k == i,
        ;
        from + (q as u32)
    } else {
        let q: u128 = (t + s - 1) / (2 * s);
        assert(q <= a) by (nonlinear_arith)
            requires
                q == (t + s - 1) / (2 * s),
                t + s < 2 * s * (a + 1),
                s > 0,
        ;
        proof {
            lemma_round_down(t as int, s as int);
            assert(2 * (to - from) * i + steps == steps - t) by (nonlinear_arith)
                requires
                    t == 2 * (a * k),
                    a == from - to,
                    k == i,
            ;
        }
        from - (q as u32)
    }
}

/// The `i`-th sample of the segment from `(x1, y1)` to `(x2, y2)`.
pub fn line_sample(x1: u32, y1: u32, x2: u32, y2: u32, i: u32) -> (p: (u32, u32))
    requires
        i < line_count(x1 as int, y1 as int, x2 as int, y2 as int),
    ensures
        (p.0 as int, p.1 as int) == line_point(x1 as int, y1 as int, x2 as int, y2 as int, i as int),
{
    let dx = extent(x1, x2);
    let dy = extent(y1, y2);
    let steps = if dx >= dy { dx } else { dy };
    if steps == 0 {
        (x1, y1)
    } else {
        (interpolate_coordinate(x1, x2, i, steps), interpolate_coordinate(y1, y2, i, steps))
    }
}

} // verus!

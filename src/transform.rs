//! Range clamping, elastic damping, easing and the screen/data mapping.
use vstd::prelude::*;

use crate::{in_domain, COORD_MAX, PER_MILLE};

verus! {

/// A point in screen space, in whole pixels.
#[derive(Clone, Copy, Debug, PartialEq, Eq, Structural)]
pub struct Point {
    pub x: i64,
    pub y: i64,
}

/// An axis-aligned rectangle in screen space, in whole pixels.
#[derive(Clone, Copy, Debug, PartialEq, Eq, Structural)]
pub struct Rectangle {
    pub x: i64,
    pub y: i64,
    pub width: i64,
    pub height: i64,
}

impl Point {
    pub fn new(x: i64, y: i64) -> (p: Point)
        ensures
            p == (Point { x, y }),
    {
        Point { x, y }
    }
}

impl Rectangle {
    /// Whether `p` lies in the rectangle (left and top edges included).
    pub open spec fn contains_spec(&self, p: Point) -> bool {
        &&& self.x <= p.x < self.x + self.width
        &&& self.y <= p.y < self.y + self.height
    }

    pub fn contains(&self, p: Point) -> (r: bool)
        ensures
            r == self.contains_spec(p),
    {
        self.x <= p.x && (p.x as i128) < self.x as i128 + self.width as i128 && self.y <= p.y && (p.y as i128)
            < self.y as i128 + self.height as i128
    }
}

/// A value pulled into the fixed-point domain.
pub open spec fn saturated(v: int) -> int {
    if v < -COORD_MAX {
        -COORD_MAX as int
    } else if v > COORD_MAX {
        COORD_MAX as int
    } else {
        v
    }
}

pub fn saturate(v: i128) -> (r: i64)
    ensures
        r == saturated(v as int),
        in_domain(r as int),
{
    if v < -(COORD_MAX as i128) {
        -COORD_MAX
    } else if v > COORD_MAX as i128 {
        COORD_MAX
    } else {
        v as i64
    }
}

/// `n / d` rounded down.
pub fn floor_div(n: i128, d: i128) -> (q: i128)
    requires
        d > 0,
        -0x1_0000_0000_0000_0000_0000_0000_0000 <= n <= 0x1_0000_0000_0000_0000_0000_0000_0000,
    ensures
        q == n / d,
        -0x1_0000_0000_0000_0000_0000_0000_0000 <= q <= 0x1_0000_0000_0000_0000_0000_0000_0000,
{
    if n >= 0 {
        let q = (n as u128) / (d as u128);
        assert(q <= n) by (nonlinear_arith)
            requires
                q == n / d,
                n >= 0,
                d >= 1,
        ;
        q as i128
    } else {
        let m = (-n) as u128;
        let dd = d as u128;
        let c = (m + dd - 1) / dd;
        proof {
            let f = (n as int) / (d as int);
            vstd::arithmetic::div_mod::lemma_fundamental_div_mod(n as int, d as int);
            vstd::arithmetic::div_mod::lemma_mod_bound(n as int, d as int);
            assert(c <= m) by (nonlinear_arith)
                requires
                    c == (m + dd - 1) as int / dd as int,
                    dd >= 1,
                    m >= 1,
            ;
            assert(c * d >= m && c * d < m + d) by (nonlinear_arith)
                requires
                    c == (m + dd - 1) as int / dd as int,
                    dd == d,
                    d >= 1,
            ;
            assert(f == -c) by (nonlinear_arith)
                requires
                    n == d * f + (n as int) % (d as int),
                    0 <= (n as int) % (d as int) < d,
                    c * d >= m && c * d < m + d,
                    m == -n,
                    d >= 1,
            ;
        }
        -(c as i128)
    }
}

/// `n / d` rounded up.
pub open spec fn ceil_div(n: int, d: int) -> int {
    -((-n) / d)
}

/// The padded bounds: each side moved out by `pad_pm` thousandths of the bounds' span.
pub open spec fn padded(b: (i64, i64), pad_pm: int) -> (int, int) {
    let pad = (b.1 - b.0) * pad_pm / PER_MILLE as int;
    (b.0 - pad, b.1 + pad)
}

/// Bounds that are absent, or ordered and inside the domain.
pub open spec fn bounds_ok(b: Option<(i64, i64)>) -> bool {
    match b {
        None => true,
        Some(b) => in_domain(b.0 as int) && in_domain(b.1 as int) && b.0 <= b.1,
    }
}

/// A fraction of thousandths between zero and one.
pub open spec fn fraction_ok(f: u32) -> bool {
    f <= PER_MILLE
}

/// The range shifted (not resized) into the padded bounds, or, when wider
/// than them, replaced by the padded bounds themselves.
pub open spec fn clamp_spec(r: (int, int), bounds: Option<(i64, i64)>, pad_pm: int) -> (int, int) {
    match bounds {
        None => r,
        Some(b) => {
            let p = padded(b, pad_pm);
            let size = r.1 - r.0;
            if size > p.1 - p.0 {
                p
            } else if r.0 < p.0 {
                (p.0, p.0 + size)
            } else if r.1 > p.1 {
                (p.1 - size, p.1)
            } else {
                r
            }
        },
    }
}

/// Whether a range pokes out of its padded bounds.
pub open spec fn out_of_bounds_spec(r: (int, int), bounds: Option<(i64, i64)>, pad_pm: int) -> bool {
    match bounds {
        None => false,
        Some(b) => {
            let p = padded(b, pad_pm);
            r.0 < p.0 || r.1 > p.1
        },
    }
}

/// Damped overscroll: grows with `over`, starts with slope one and never reaches `m`.
pub open spec fn damp(m: int, over: int) -> int {
    if m <= 0 {
        0
    } else {
        m * over / (m + over)
    }
}

/// The range with any excess over its padded bounds damped toward
/// `limit_pm` thousandths of its span, its span kept.
pub open spec fn elastic_spec(
    r: (int, int),
    bounds: Option<(i64, i64)>,
    pad_pm: int,
    limit_pm: int,
) -> (int, int) {
    match bounds {
        None => r,
        Some(b) => {
            let p = padded(b, pad_pm);
            let size = r.1 - r.0;
            let m = size * limit_pm / PER_MILLE as int;
            if r.0 < p.0 {
                let lo = p.0 - damp(m, p.0 - r.0);
                (lo, lo + size)
            } else if r.1 > p.1 {
                let hi = p.1 + damp(m, r.1 - p.1);
                (hi - size, hi)
            } else {
                r
            }
        },
    }
}

fn padded_exec(b: (i64, i64), pad_pm: u32) -> (p: (i64, i64))
    requires
        bounds_ok(Some(b)),
        fraction_ok(pad_pm),
    ensures
        p.0 == padded(b, pad_pm as int).0,
        p.1 == padded(b, pad_pm as int).1,
        -3 * COORD_MAX <= p.0 <= b.0,
        b.1 <= p.1 <= 3 * COORD_MAX,
{
    let span = (b.1 - b.0) as u64;
    assert(span * (pad_pm as u64) <= 2 * COORD_MAX * 1000) by (nonlinear_arith)
        requires
            span <= 2 * COORD_MAX,
            pad_pm <= 1000,
    ;
    let pad = span * (pad_pm as u64) / (PER_MILLE as u64);
    assert(pad <= span) by (nonlinear_arith)
        requires
            pad == span * pad_pm / 1000,
            pad_pm <= 1000,
    ;
    (b.0 - pad as i64, b.1 + pad as i64)
}

/// Keeps a view range inside padded bounds by shifting it, or, when it is
/// wider than the padded bounds, by replacing it with them.
pub fn clamp_range_to_bounds(range: (i64, i64), bounds: Option<(i64, i64)>, padding_frac: u32) -> (r: (i64, i64))
    requires
        in_domain(range.0 as int) && in_domain(range.1 as int),
        bounds_ok(bounds),
        fraction_ok(padding_frac),
    ensures
        (r.0 as int, r.1 as int) == clamp_spec((range.0 as int, range.1 as int), bounds, padding_frac as int),
        -3 * COORD_MAX <= r.0 <= 3 * COORD_MAX,
        -3 * COORD_MAX <= r.1 <= 3 * COORD_MAX,
{
    let (lo, hi) = range;
    match bounds {
        None => (lo, hi),
        Some(b) => {
            let p = padded_exec(b, padding_frac);
            let size = hi - lo;
            if size > p.1 - p.0 {
                p
            } else if lo < p.0 {
                (p.0, p.0 + size)
            } else if hi > p.1 {
                (p.1 - size, p.1)
            } else {
                (lo, hi)
            }
        },
    }
}

/// Whether a range lies outside its padded bounds on either side.
pub fn is_out_of_bounds(range: (i64, i64), bounds: Option<(i64, i64)>, padding_frac: u32) -> (r: bool)
    requires
        bounds_ok(bounds),
        fraction_ok(padding_frac),
    ensures
        r == out_of_bounds_spec((range.0 as int, range.1 as int), bounds, padding_frac as int),
{
    match bounds {
        None => false,
        Some(b) => {
            let p = padded_exec(b, padding_frac);
            range.0 < p.0 || range.1 > p.1
        },
    }
}

fn damp_exec(m: i64, over: i64) -> (d: i64)
    requires
        0 <= m <= 2 * COORD_MAX,
        0 < over <= 4 * COORD_MAX,
    ensures
        d == damp(m as int, over as int),
        0 <= d <= over,
        m > 0 ==> d < m,
{
    if m <= 0 {
        0
    } else {
        assert((m as u128) * (over as u128) <= 8 * COORD_MAX * COORD_MAX) by (nonlinear_arith)
            requires
                0 < m <= 2 * COORD_MAX,
                0 < over <= 4 * COORD_MAX,
        ;
        let q = (m as u128) * (over as u128) / ((m + over) as u128);
        assert(q <= over && q < m) by (nonlinear_arith)
            requires
                q == (m * over) / (m + over),
                m > 0,
                over > 0,
        {
            assert(m * over <= over * (m + over));
            assert(m * over < m * (m + over));
        }
        q as i64
    }
}

/// Lets a dragged range run past its padded bounds against a resistance that
/// grows with the excess, so that the overscroll stays below `elastic_limit`
/// thousandths of the span.
///
/// The damping curve is the rational saturation `m * over / (m + over)`
/// (see `damp`), not the exponential `m * (1 - e^(-over / m))`: both start
/// with slope one, rise steadily and approach `m` without reaching it, but
/// only the rational one is exact in integer arithmetic.
pub fn apply_elastic_resistance(
    range: (i64, i64),
    bounds: Option<(i64, i64)>,
    padding_frac: u32,
    elastic_limit: u32,
) -> (r: (i64, i64))
    requires
        in_domain(range.0 as int) && in_domain(range.1 as int),
        bounds_ok(bounds),
        fraction_ok(padding_frac),
        fraction_ok(elastic_limit),
    ensures
        (r.0 as int, r.1 as int) == elastic_spec(
            (range.0 as int, range.1 as int),
            bounds,
            padding_frac as int,
            elastic_limit as int,
        ),
        -5 * COORD_MAX <= r.0 <= 5 * COORD_MAX,
        -5 * COORD_MAX <= r.1 <= 5 * COORD_MAX,
{
    let (lo, hi) = range;
    match bounds {
        None => (lo, hi),
        Some(b) => {
            let p = padded_exec(b, padding_frac);
            let size = hi - lo;
            let m: i64 = if size > 0 {
                assert((size as u64) * (elastic_limit as u64) <= 2 * COORD_MAX * 1000) by (nonlinear_arith)
                    requires
                        0 < size <= 2 * COORD_MAX,
                        elastic_limit <= 1000,
                ;
                let v = (size as u64) * (elastic_limit as u64) / (PER_MILLE as u64);
                assert(v <= size) by (nonlinear_arith)
                    requires
                        v == (size as u64) * (elastic_limit as u64) / 1000,
                        elastic_limit <= 1000,
                        size > 0,
                ;
                v as i64
            } else {
                proof {
                    assert(size * elastic_limit <= 0) by (nonlinear_arith)
                        requires
                            size <= 0,
                            elastic_limit >= 0,
                    ;
                    assert(size * elastic_limit / 1000 <= 0);
                }
                0
            };
            if lo < p.0 {
                let new_lo = p.0 - damp_exec(m, p.0 - lo);
                (new_lo, new_lo + size)
            } else if hi > p.1 {
                let new_hi = p.1 + damp_exec(m, hi - p.1);
                (new_hi - size, new_hi)
            } else {
                (lo, hi)
            }
        },
    }
}

/// Clamping an ordered range against ordered bounds leaves it inside the
/// padded bounds, with its span kept whenever it fits in them.
pub proof fn lemma_clamp_contained(r: (int, int), b: (i64, i64), pad_pm: int)
    requires
        r.0 <= r.1,
        b.0 <= b.1,
        0 <= pad_pm,
    ensures
        ({
            let p = padded(b, pad_pm);
            let c = clamp_spec(r, Some(b), pad_pm);
            &&& p.0 <= c.0 <= c.1 <= p.1
            &&& (r.1 - r.0 <= p.1 - p.0 ==> c.1 - c.0 == r.1 - r.0)
        }),
{
    let pad = (b.1 - b.0) * pad_pm / PER_MILLE as int;
    assert(pad >= 0) by (nonlinear_arith)
        requires
            pad == (b.1 - b.0) * pad_pm / 1000,
            b.1 - b.0 >= 0,
            pad_pm >= 0,
    ;
}

/// The gap left between an eased value and its target: `diff` shrunk three
/// times by the fraction `left / d` of the animation still to run.
pub open spec fn eased_gap(diff: int, left: int, d: int) -> int {
    if diff >= 0 {
        diff * left / d * left / d * left / d
    } else {
        -((-diff) * left / d * left / d * left / d)
    }
}

/// Ease-out cubic from `from` to `to` after `elapsed` of `d` milliseconds:
/// the remaining gap falls as `(1 - t)^3`.
pub open spec fn ease_value(from: int, to: int, elapsed: int, d: int) -> int {
    if elapsed >= d {
        to
    } else {
        to - eased_gap(to - from, d - elapsed, d)
    }
}

pub open spec fn lerp_range_spec(from: (i64, i64), to: (i64, i64), elapsed: int, d: int) -> (int, int) {
    (ease_value(from.0 as int, to.0 as int, elapsed, d), ease_value(from.1 as int, to.1 as int, elapsed, d))
}

fn shrink(v: u128, left: u128, d: u128) -> (r: u128)
    requires
        v <= 2 * COORD_MAX,
        left <= d,
        d > 0,
        d <= 0xffff_ffff_ffff_ffff,
    ensures
        r == v * left / (d as int),
        r <= v,
{
    assert(v * left <= 2 * COORD_MAX * 0xffff_ffff_ffff_ffff) by (nonlinear_arith)
        requires
            v <= 2 * COORD_MAX,
            left <= 0xffff_ffff_ffff_ffff,
    ;
    let r = v * left / d;
    assert(r <= v) by (nonlinear_arith)
        requires
            r == v * left / (d as int),
            left <= d,
            d > 0,
    {
        assert(v * left <= v * d);
    }
    r
}

fn ease_exec(from: i64, to: i64, elapsed: u64, d: u64) -> (r: i64)
    requires
        in_domain(from as int) && in_domain(to as int),
    ensures
        r == ease_value(from as int, to as int, elapsed as int, d as int),
        in_domain(r as int),
{
    if elapsed >= d {
        return to;
    }
    let left = (d - elapsed) as u128;
    let dd = d as u128;
    let diff = to - from;
    if diff >= 0 {
        let g = shrink(shrink(shrink(diff as u128, left, dd), left, dd), left, dd);
        proof {
            assert(g <= diff);
        }
        let r = to - g as i64;
        proof {
            assert(r >= from);
        }
        r
    } else {
        let g = shrink(shrink(shrink((-diff) as u128, left, dd), left, dd), left, dd);
        let r = to + g as i64;
        proof {
            assert(r <= from);
        }
        r
    }
}

/// The range `elapsed` milliseconds into a `duration_ms` ease-out-cubic
/// animation from `from` to `to`; the target itself once the time is up.
pub fn lerp_range(from: (i64, i64), to: (i64, i64), elapsed: u64, duration_ms: u64) -> (r: (i64, i64))
    requires
        in_domain(from.0 as int) && in_domain(from.1 as int),
        in_domain(to.0 as int) && in_domain(to.1 as int),
    ensures
        (r.0 as int, r.1 as int) == lerp_range_spec(from, to, elapsed as int, duration_ms as int),
        in_domain(r.0 as int) && in_domain(r.1 as int),
{
    (ease_exec(from.0, to.0, elapsed, duration_ms), ease_exec(from.1, to.1, elapsed, duration_ms))
}

/// A widget rectangle and padding that leave a plot area of positive size.
pub open spec fn frame_ok(bounds: Rectangle, padding: i64) -> bool {
    &&& in_domain(bounds.x as int) && in_domain(bounds.y as int)
    &&& 0 <= padding <= COORD_MAX
    &&& bounds.width - 2 * padding > 0 && bounds.width <= COORD_MAX
    &&& bounds.height - 2 * padding > 0 && bounds.height <= COORD_MAX
}

/// Whether the widget rectangle and padding leave a plot area (see `frame_ok`).
pub fn frame_ok_exec(bounds: Rectangle, padding: i64) -> (r: bool)
    ensures
        r == frame_ok(bounds, padding),
{
    -COORD_MAX <= bounds.x && bounds.x <= COORD_MAX && -COORD_MAX <= bounds.y && bounds.y <= COORD_MAX && 0
        <= padding && padding <= COORD_MAX && bounds.width <= COORD_MAX && bounds.height <= COORD_MAX
        && bounds.width > 2 * padding && bounds.height > 2 * padding
}

/// An ordered view range with positive span inside the domain.
pub open spec fn view_ok(v: [i64; 2]) -> bool {
    in_domain(v[0] as int) && in_domain(v[1] as int) && v[0] < v[1]
}

/// The data point under a screen point (absolute coordinates), its offset
/// from the view's first end rounded away from zero to a fixed-point unit.
pub open spec fn screen_to_data_spec(
    screen: Point,
    bounds: Rectangle,
    view_x: [i64; 2],
    view_y: [i64; 2],
    padding: i64,
) -> (int, int) {
    let w = bounds.width - 2 * padding;
    let h = bounds.height - 2 * padding;
    let ox = screen.x - bounds.x - padding;
    let oy = h - (screen.y - bounds.y - padding);
    (
        saturated(view_x[0] + round_away(ox * (view_x[1] - view_x[0]), w)),
        saturated(view_y[0] + round_away(oy * (view_y[1] - view_y[0]), h)),
    )
}

/// `n / d` (for a positive `d`) rounded away from zero.
pub open spec fn round_away(n: int, d: int) -> int {
    if n >= 0 {
        ceil_div(n, d)
    } else {
        n / d
    }
}

pub open spec fn abs_int(v: int) -> int {
    if v >= 0 {
        v
    } else {
        -v
    }
}

/// `n / d` rounded down, for a divisor of either sign.
pub open spec fn floor_q(n: int, d: int) -> int {
    if d > 0 {
        n / d
    } else {
        (-n) / (-d)
    }
}

/// A view range of non-zero span (either order) inside the domain.
pub open spec fn view_nonzero(v: [i64; 2]) -> bool {
    in_domain(v[0] as int) && in_domain(v[1] as int) && v[0] != v[1]
}

/// The screen point (relative to the widget) of a data point, rounded down
/// to whole pixels. The Y axis points down on screen.
pub open spec fn data_to_screen_spec(
    x: int,
    y: int,
    view_x: [i64; 2],
    view_y: [i64; 2],
    viewport: (i64, i64),
    padding: i64,
) -> (int, int) {
    let w = viewport.0 - 2 * padding;
    let h = viewport.1 - 2 * padding;
    (
        saturated(padding + floor_q((x - view_x[0]) * w, view_x[1] - view_x[0])),
        saturated(padding + h - floor_q((y - view_y[0]) * h, view_y[1] - view_y[0])),
    )
}

fn scale_offset(base: i64, offset: i64, span: i64, extent: i64, round_up: bool) -> (r: i64)
    requires
        in_domain(base as int),
        -5 * COORD_MAX <= offset <= 5 * COORD_MAX,
        -2 * COORD_MAX <= span <= 2 * COORD_MAX,
        0 < extent,
    ensures
        round_up ==> r == saturated(base + ceil_div(offset * span, extent as int)),
        !round_up ==> r == saturated(base + (offset * span) / (extent as int)),
{
    assert(-10 * COORD_MAX * COORD_MAX <= (offset as i128) * (span as i128) <= 10 * COORD_MAX * COORD_MAX)
        by (nonlinear_arith)
        requires
            -5 * COORD_MAX <= offset <= 5 * COORD_MAX,
            -2 * COORD_MAX <= span <= 2 * COORD_MAX,
    ;
    let n = (offset as i128) * (span as i128);
    let q = if round_up {
        -floor_div(-n, extent as i128)
    } else {
        floor_div(n, extent as i128)
    };
    assert(-10 * COORD_MAX * COORD_MAX <= q <= 10 * COORD_MAX * COORD_MAX) by (nonlinear_arith)
        requires
            round_up ==> q == -((-n) / (extent as int)),
            !round_up ==> q == (n as int) / (extent as int),
            -10 * COORD_MAX * COORD_MAX <= n <= 10 * COORD_MAX * COORD_MAX,
            extent >= 1,
    {
        if round_up {
            assert(-n / (extent as int) <= 10 * COORD_MAX * COORD_MAX);
            assert(-n / (extent as int) >= -10 * COORD_MAX * COORD_MAX);
        } else {
            assert((n as int) / (extent as int) <= 10 * COORD_MAX * COORD_MAX);
            assert((n as int) / (extent as int) >= -10 * COORD_MAX * COORD_MAX);
        }
    }
    saturate(base as i128 + q)
}

/// Whether a screen point can be told apart from its neighbours in data
/// space: the views have non-zero span (in either order), each span holds at least as many
/// fixed-point units as the plot area has pixels, and the point lies in the
/// plot area.
pub open spec fn resolvable(screen: Point, bounds: Rectangle, view_x: [i64; 2], view_y: [i64; 2], padding: i64) -> bool {
    &&& view_nonzero(view_x) && view_nonzero(view_y)
    &&& bounds.x + padding <= screen.x <= bounds.x + bounds.width - padding
    &&& bounds.y + padding <= screen.y <= bounds.y + bounds.height - padding
    &&& abs_int(view_x[1] - view_x[0]) >= bounds.width - 2 * padding
    &&& abs_int(view_y[1] - view_y[0]) >= bounds.height - 2 * padding
}

/// Converts a screen point (absolute coordinates) to data coordinates,
/// rounded up to the next fixed-point unit. Where the point is
/// `resolvable`, the data point maps back to it exactly, so distinct such
/// points give distinct data points; a view span with fewer units than the
/// plot has pixels sends neighbouring pixels to one value.
pub fn screen_to_data(
    screen: Point,
    bounds: Rectangle,
    view_x: [i64; 2],
    view_y: [i64; 2],
    padding: i64,
) -> (r: (i64, i64))
    requires
        frame_ok(bounds, padding),
        in_domain(screen.x as int) && in_domain(screen.y as int),
        in_domain(view_x[0] as int) && in_domain(view_x[1] as int),
        in_domain(view_y[0] as int) && in_domain(view_y[1] as int),
    ensures
        (r.0 as int, r.1 as int) == screen_to_data_spec(screen, bounds, view_x, view_y, padding),
        in_domain(r.0 as int) && in_domain(r.1 as int),
        resolvable(screen, bounds, view_x, view_y, padding) ==> {
            let s = data_to_screen_spec(r.0 as int, r.1 as int, view_x, view_y, (bounds.width, bounds.height), padding);
            s.0 + bounds.x == screen.x && s.1 + bounds.y == screen.y
        },
{
    let w = bounds.width - 2 * padding;
    let h = bounds.height - 2 * padding;
    let ox = screen.x - bounds.x - padding;
    let oy = h - (screen.y - bounds.y - padding);
    let sx = view_x[1] - view_x[0];
    let sy = view_y[1] - view_y[0];
    let up_x = (ox >= 0 && sx >= 0) || (ox <= 0 && sx <= 0);
    let up_y = (oy >= 0 && sy >= 0) || (oy <= 0 && sy <= 0);
    proof {
        lemma_product_sign(ox as int, sx as int);
        lemma_product_sign(oy as int, sy as int);
    }
    let x = scale_offset(view_x[0], ox, sx, w, up_x);
    let y = scale_offset(view_y[0], oy, sy, h, up_y);
    proof {
        if resolvable(screen, bounds, view_x, view_y, padding) {
            lemma_round_trip(screen, bounds, view_x, view_y, padding);
        }
    }
    (x, y)
}

/// Converts a data point to screen coordinates relative to the widget.
pub fn data_to_screen(
    x: i64,
    y: i64,
    view_x: [i64; 2],
    view_y: [i64; 2],
    viewport: (i64, i64),
    padding: i64,
) -> (r: (i64, i64))
    requires
        0 <= padding <= COORD_MAX,
        viewport.0 - 2 * padding > 0 && viewport.0 <= COORD_MAX,
        viewport.1 - 2 * padding > 0 && viewport.1 <= COORD_MAX,
        in_domain(x as int) && in_domain(y as int),
        view_nonzero(view_x) && view_nonzero(view_y),
    ensures
        (r.0 as int, r.1 as int) == data_to_screen_spec(x as int, y as int, view_x, view_y, viewport, padding),
        in_domain(r.0 as int) && in_domain(r.1 as int),
{
    let w = viewport.0 - 2 * padding;
    let h = viewport.1 - 2 * padding;
    let span_x = view_x[1] - view_x[0];
    let span_y = view_y[1] - view_y[0];
    let sx = if span_x > 0 {
        scale_offset(padding, x - view_x[0], w, span_x, false)
    } else {
        assert(-((x - view_x[0]) * w) == (view_x[0] - x) * w) by (nonlinear_arith);
        scale_offset(padding, view_x[0] - x, w, -span_x, false)
    };
    let sy = if span_y > 0 {
        assert(-((view_y[0] - y) * h) == (y - view_y[0]) * h) by (nonlinear_arith);
        scale_offset(padding + h, view_y[0] - y, h, span_y, true)
    } else {
        assert(-((y - view_y[0]) * h) == (view_y[0] - y) * h) by (nonlinear_arith);
        scale_offset(padding + h, y - view_y[0], h, -span_y, true)
    };
    (sx, sy)
}

proof fn lemma_ceil_then_floor(a: int, s: int, w: int)
    requires
        0 <= a <= w,
        1 <= w <= s,
    ensures
        0 <= ceil_div(a * s, w) <= s,
        ceil_div(a * s, w) * w / s == a,
{
    let n = a * s;
    let q = (-n) / w;
    vstd::arithmetic::div_mod::lemma_fundamental_div_mod(-n, w);
    vstd::arithmetic::div_mod::lemma_mod_bound(-n, w);
    let c = -q;
    assert(n <= c * w < n + w) by (nonlinear_arith)
        requires
            -n == w * q + (-n) % w,
            0 <= (-n) % w < w,
            c == -q,
    ;
    assert(0 <= c <= s) by (nonlinear_arith)
        requires
            n <= c * w < n + w,
            n == a * s,
            0 <= a <= w,
            1 <= w <= s,
    ;
    let f = c * w / s;
    vstd::arithmetic::div_mod::lemma_fundamental_div_mod(c * w, s);
    vstd::arithmetic::div_mod::lemma_mod_bound(c * w, s);
    assert(f == a) by (nonlinear_arith)
        requires
            c * w == s * f + (c * w) % s,
            0 <= (c * w) % s < s,
            a * s <= c * w < a * s + w,
            1 <= w <= s,
    {
        assert(s * f <= c * w < s * (a + 1));
        assert(a * s <= s * f + (c * w) % s);
        assert(a * s < s * (f + 1));
        assert(s * f < s * (a + 1));
    }
}

proof fn lemma_product_sign(a: int, b: int)
    ensures
        (a >= 0 && b >= 0) || (a <= 0 && b <= 0) ==> a * b >= 0,
        !((a >= 0 && b >= 0) || (a <= 0 && b <= 0)) ==> a * b < 0,
{
    if a > 0 && b < 0 {
        assert(a * b < 0) by (nonlinear_arith)
            requires
                a > 0 && b < 0,
        ;
    } else if a < 0 && b > 0 {
        assert(a * b < 0) by (nonlinear_arith)
            requires
                a < 0 && b > 0,
        ;
    } else if a >= 0 && b >= 0 {
        assert(a * b >= 0) by (nonlinear_arith)
            requires
                a >= 0 && b >= 0,
        ;
    } else {
        assert(a * b >= 0) by (nonlinear_arith)
            requires
                a <= 0 && b <= 0,
        ;
    }
}

/// One axis of the round trip, for a span of either sign.
proof fn lemma_axis_round_trip(a: int, s: int, w: int)
    requires
        0 <= a <= w,
        1 <= w <= abs_int(s),
    ensures
        s > 0 ==> 0 <= round_away(a * s, w) <= s,
        s < 0 ==> s <= round_away(a * s, w) <= 0,
        floor_q(round_away(a * s, w) * w, s) == a,
{
    if s > 0 {
        lemma_product_sign(a, s);
        lemma_ceil_then_floor(a, s, w);
    } else {
        let t = -s;
        lemma_ceil_then_floor(a, t, w);
        assert(a * s == -(a * t)) by (nonlinear_arith)
            requires
                t == -s,
        ;
        let c = ceil_div(a * t, w);
        if a == 0 {
            assert(a * s == 0);
            assert(round_away(a * s, w) == 0);
            assert(0 * w == 0);
        } else {
            assert(a * t > 0) by (nonlinear_arith)
                requires
                    a > 0 && t > 0,
            ;
            assert(round_away(a * s, w) == -c);
            assert((-(-c * w)) == c * w) by (nonlinear_arith);
        }
    }
}

/// A screen point inside the plot area, mapped to data and back, comes out
/// where it went in, whenever each view span (in either order) holds at
/// least as many fixed-point units as the plot area has pixels along that
/// axis.
pub proof fn lemma_round_trip(
    screen: Point,
    bounds: Rectangle,
    view_x: [i64; 2],
    view_y: [i64; 2],
    padding: i64,
)
    requires
        frame_ok(bounds, padding),
        resolvable(screen, bounds, view_x, view_y, padding),
    ensures
        ({
            let d = screen_to_data_spec(screen, bounds, view_x, view_y, padding);
            let s = data_to_screen_spec(d.0, d.1, view_x, view_y, (bounds.width, bounds.height), padding);
            s.0 + bounds.x == screen.x && s.1 + bounds.y == screen.y
        }),
{
    let w = bounds.width - 2 * padding;
    let h = bounds.height - 2 * padding;
    let ox = screen.x - bounds.x - padding;
    let oy = h - (screen.y - bounds.y - padding);
    lemma_axis_round_trip(ox, view_x[1] - view_x[0], w);
    lemma_axis_round_trip(oy, view_y[1] - view_y[0], h);
}

} // verus!

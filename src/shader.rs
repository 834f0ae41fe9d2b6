//! Geometry for one frame: coloured markers, line quads that never join two
//! series, grid and axis lines, and the selection overlay.
use vstd::prelude::*;

use crate::colormap::{lerp_color, lerp_spec, mix, Color, ColormapName};
use crate::plotter::{ColorMode, PlotPoint, PlotSeries, Plotter, PlotterOptions};
use crate::ticks::{compute_ticks, ticks_of};
use crate::transform::{saturate, saturated, view_nonzero, Point, Rectangle};
use crate::{in_domain, COORD_MAX};

verus! {

/// A vertex for the renderer. Marker positions are in data coordinates;
/// line, grid and overlay positions are in thousandths of a pixel relative
/// to the widget.
#[derive(Clone, Copy, Debug)]
pub struct RawPoint {
    pub position: [i64; 2],
    pub color: Color,
    pub shape: u32,
}

impl RawPoint {
    pub fn new(x: i64, y: i64, color: Color) -> (p: RawPoint)
        ensures
            p == (RawPoint { position: [x, y], color, shape: 0 }),
    {
        RawPoint { position: [x, y], color, shape: 0 }
    }

    pub fn with_shape(x: i64, y: i64, color: Color, shape: u32) -> (p: RawPoint)
        ensures
            p == (RawPoint { position: [x, y], color, shape }),
    {
        RawPoint { position: [x, y], color, shape }
    }
}

/// What to draw.
#[derive(Clone, Copy, Debug, Default)]
pub struct RenderConfig {
    pub show_markers: bool,
    pub show_lines: bool,
}

/// The tick values of both axes, for the label layer.
#[derive(Clone, Debug)]
pub struct TickInfo {
    pub x_ticks: Vec<i64>,
    pub y_ticks: Vec<i64>,
}

/// The integer square root: the largest `r` with `r * r <= n`.
pub fn isqrt(n: u128) -> (r: u128)
    requires
        n < 0x1_0000_0000_0000_0000_0000_0000,
    ensures
        r * r <= n < (r + 1) * (r + 1),
{
    let mut lo: u128 = 0;
    let mut hi: u128 = 0x1_0000_0000_0000;
    assert(hi * hi == 0x1_0000_0000_0000_0000_0000_0000) by (nonlinear_arith)
        requires
            hi == 0x1_0000_0000_0000,
    ;
    while lo + 1 < hi
        invariant
            lo < hi <= 0x1_0000_0000_0000,
            lo * lo <= n < hi * hi,
        decreases hi - lo,
    {
        let mid = lo + (hi - lo) / 2;
        assert(mid * mid <= 0x1_0000_0000_0000_0000_0000_0000) by (nonlinear_arith)
            requires
                mid <= 0x1_0000_0000_0000,
        ;
        if mid * mid <= n {
            lo = mid;
        } else {
            hi = mid;
        }
    }
    assert(hi == lo + 1);
    lo
}

/// The two triangles of a segment from `a` to `b` widened by `half` on each
/// side; nothing for a segment shorter than one unit.
pub open spec fn quad_spec(a: (i64, i64), b: (i64, i64), half: int, len: int, color: Color) -> Seq<RawPoint> {
    if len < 1 {
        seq![]
    } else {
        let dx = b.0 - a.0;
        let dy = b.1 - a.1;
        let nx = trunc(-dy * half, len);
        let ny = trunc(dx * half, len);
        let v0 = RawPoint { position: [(a.0 + nx) as i64, (a.1 + ny) as i64], color, shape: 0 };
        let v1 = RawPoint { position: [(a.0 - nx) as i64, (a.1 - ny) as i64], color, shape: 0 };
        let v2 = RawPoint { position: [(b.0 + nx) as i64, (b.1 + ny) as i64], color, shape: 0 };
        let v3 = RawPoint { position: [(b.0 - nx) as i64, (b.1 - ny) as i64], color, shape: 0 };
        seq![v0, v1, v2, v1, v3, v2]
    }
}

/// `n / d` rounded toward zero.
pub open spec fn trunc(n: int, d: int) -> int {
    if n >= 0 {
        n / d
    } else {
        -((-n) / d)
    }
}

/// The length of a segment, rounded down.
pub open spec fn seg_len(a: (i64, i64), b: (i64, i64), len: int) -> bool {
    let dx = b.0 - a.0;
    let dy = b.1 - a.1;
    len * len <= dx * dx + dy * dy < (len + 1) * (len + 1) && len >= 0
}

/// A point inside the domain.
pub open spec fn pt_ok(a: (i64, i64)) -> bool {
    in_domain(a.0 as int) && in_domain(a.1 as int)
}

/// The integer square root of a non-negative `n`.
pub open spec fn root(n: int) -> int {
    choose|r: int| is_root(n, r)
}

pub open spec fn is_root(n: int, r: int) -> bool {
    r >= 0 && r * r <= n < (r + 1) * (r + 1)
}

proof fn lemma_root_unique(n: int, r: int)
    requires
        r >= 0 && r * r <= n < (r + 1) * (r + 1),
    ensures
        root(n) == r,
{
    assert(is_root(n, r));
    let q = root(n);
    assert(is_root(n, q));
    if q < r {
        assert((q + 1) * (q + 1) <= r * r) by (nonlinear_arith)
            requires
                0 <= q < r,
        ;
    } else if r < q {
        assert((r + 1) * (r + 1) <= q * q) by (nonlinear_arith)
            requires
                0 <= r < q,
        ;
    }
}

/// The quad of the segment `a`-`b` widened by `half` on each side.
pub open spec fn quad_of(a: (i64, i64), b: (i64, i64), half: int, color: Color) -> Seq<RawPoint> {
    let dx = b.0 - a.0;
    let dy = b.1 - a.1;
    quad_spec(a, b, half, root(dx * dx + dy * dy), color)
}

/// Appends the quad of the segment `a`-`b` (see `quad_spec`) to `out`.
pub fn push_line_quad(out: &mut Vec<RawPoint>, a: (i64, i64), b: (i64, i64), half: u32, color: Color)
    requires
        pt_ok(a) && pt_ok(b),
    ensures
        final(out)@ == old(out)@ + quad_of(a, b, half as int, color),
{
    let g = push_quad_inner(out, a, b, half, color);
    proof {
        lemma_root_unique((b.0 - a.0) * (b.0 - a.0) + (b.1 - a.1) * (b.1 - a.1), g@);
    }
}

fn push_quad_inner(out: &mut Vec<RawPoint>, a: (i64, i64), b: (i64, i64), half: u32, color: Color) -> (len: Ghost<int>)
    requires
        pt_ok(a) && pt_ok(b),
    ensures
        seg_len(a, b, len@),
        final(out)@ == old(out)@ + quad_spec(a, b, half as int, len@, color),
{
    let dx = b.0 as i128 - a.0 as i128;
    let dy = b.1 as i128 - a.1 as i128;
    let ax = if dx >= 0 { dx as u128 } else { (-dx) as u128 };
    let ay = if dy >= 0 { dy as u128 } else { (-dy) as u128 };
    assert(ax * ax + ay * ay <= 8 * COORD_MAX * COORD_MAX) by (nonlinear_arith)
        requires
            ax <= 2 * COORD_MAX,
            ay <= 2 * COORD_MAX,
    ;
    let sq = ax * ax + ay * ay;
    assert(sq == dx * dx + dy * dy) by (nonlinear_arith)
        requires
            sq == ax * ax + ay * ay,
            ax == dx || ax == -dx,
            ay == dy || ay == -dy,
    ;
    let len = isqrt(sq);
    assert(len * len <= dx * dx + dy * dy < (len + 1) * (len + 1));
    if len < 1 {
        assert(out@ + quad_spec(a, b, half as int, len as int, color) =~= out@);
        return Ghost(len as int);
    }
    assert(len <= 3 * COORD_MAX) by (nonlinear_arith)
        requires
            len * len <= sq,
            sq <= 8 * COORD_MAX * COORD_MAX,
            len >= 1,
    ;
    assert(-2 * COORD_MAX * 0x1_0000_0000 <= -dy * (half as i128) <= 2 * COORD_MAX * 0x1_0000_0000) by (nonlinear_arith)
        requires
            -2 * COORD_MAX <= dy <= 2 * COORD_MAX,
            0 <= half < 0x1_0000_0000,
    ;
    assert(-2 * COORD_MAX * 0x1_0000_0000 <= dx * (half as i128) <= 2 * COORD_MAX * 0x1_0000_0000) by (nonlinear_arith)
        requires
            -2 * COORD_MAX <= dx <= 2 * COORD_MAX,
            0 <= half < 0x1_0000_0000,
    ;
    let nx = trunc_exec(-dy * (half as i128), len as i128);
    let ny = trunc_exec(dx * (half as i128), len as i128);
    let v0 = RawPoint { position: [(a.0 as i128 + nx) as i64, (a.1 as i128 + ny) as i64], color, shape: 0 };
    let v1 = RawPoint { position: [(a.0 as i128 - nx) as i64, (a.1 as i128 - ny) as i64], color, shape: 0 };
    let v2 = RawPoint { position: [(b.0 as i128 + nx) as i64, (b.1 as i128 + ny) as i64], color, shape: 0 };
    let v3 = RawPoint { position: [(b.0 as i128 - nx) as i64, (b.1 as i128 - ny) as i64], color, shape: 0 };
    out.push(v0);
    out.push(v1);
    out.push(v2);
    out.push(v1);
    out.push(v3);
    out.push(v2);
    assert(final(out)@ =~= old(out)@ + quad_spec(a, b, half as int, len as int, color));
    Ghost(len as int)
}

fn trunc_exec(n: i128, d: i128) -> (q: i128)
    requires
        d > 0,
        -0x1_0000_0000_0000_0000_0000_0000 <= n <= 0x1_0000_0000_0000_0000_0000_0000,
    ensures
        q == trunc(n as int, d as int),
        -0x1_0000_0000_0000_0000_0000_0000 <= q <= 0x1_0000_0000_0000_0000_0000_0000,
        d >= 1 && -2 * COORD_MAX * 0x1_0000_0000 <= n <= 2 * COORD_MAX * 0x1_0000_0000 ==> -2 * COORD_MAX
            * 0x1_0000_0000 <= q <= 2 * COORD_MAX * 0x1_0000_0000,
{
    if n >= 0 {
        let q = (n as u128) / (d as u128);
        assert(q <= n) by (nonlinear_arith)
            requires
                q == (n as int) / (d as int),
                n >= 0,
                d >= 1,
        ;
        q as i128
    } else {
        let q = ((-n) as u128) / (d as u128);
        assert(q <= -n) by (nonlinear_arith)
            requires
                q == (-n) / (d as int),
                -n >= 0,
                d >= 1,
        ;
        -(q as i128)
    }
}

/// References `(series, index)` to the points of the visible series among
/// the first `k` series, in order.
pub open spec fn flat_refs(p: &Plotter, k: int) -> Seq<(usize, usize)>
    decreases k,
{
    if k <= 0 {
        seq![]
    } else {
        flat_refs(p, k - 1) + if p.visible(k - 1) {
            Seq::new(p.series@[k - 1].points.view().len(), |i: int| ((k - 1) as usize, i as usize))
        } else {
            seq![]
        }
    }
}

/// Where each visible series among the first `k` starts in the flat list.
pub open spec fn boundaries_spec(p: &Plotter, k: int) -> Seq<usize>
    decreases k,
{
    if k <= 0 {
        seq![]
    } else {
        boundaries_spec(p, k - 1) + if p.visible(k - 1) {
            seq![flat_refs(p, k - 1).len() as usize]
        } else {
            seq![]
        }
    }
}

/// The starts `a` of the line segments `a`-`a + 1` among the first `m`
/// flat points: consecutive points of one series.
pub open spec fn joins(refs: Seq<(usize, usize)>, m: int) -> Seq<int>
    decreases m,
{
    if m <= 0 {
        seq![]
    } else {
        joins(refs, m - 1) + if m < refs.len() && refs[m - 1].0 == refs[m].0 {
            seq![m - 1]
        } else {
            seq![]
        }
    }
}

/// A line segment only ever joins two consecutive points of the same
/// input series.
pub proof fn lemma_joins_within_series(refs: Seq<(usize, usize)>, m: int)
    ensures
        forall|j: int|
            0 <= j < joins(refs, m).len() ==> {
                let a = #[trigger] joins(refs, m)[j];
                0 <= a && a + 1 < refs.len() && refs[a].0 == refs[a + 1].0
            },
    decreases m,
{
    if m > 0 {
        lemma_joins_within_series(refs, m - 1);
        let prev = joins(refs, m - 1);
        let tail = if m < refs.len() && refs[m - 1].0 == refs[m].0 {
            seq![m - 1]
        } else {
            seq![]
        };
        assert forall|j: int| 0 <= j < joins(refs, m).len() implies {
            let a = #[trigger] joins(refs, m)[j];
            0 <= a && a + 1 < refs.len() && refs[a].0 == refs[a + 1].0
        } by {
            if j < prev.len() {
                assert(joins(refs, m)[j] == prev[j]);
            } else {
                assert(joins(refs, m)[j] == tail[j - prev.len()]);
            }
        }
    }
}

/// Flat references of consecutive points of one series name the same
/// series and consecutive indices.
pub proof fn lemma_flat_refs_shape(p: &Plotter, k: int)
    requires
        p.data_wf(),
        0 <= k <= p.series@.len(),
    ensures
        forall|j: int|
            0 <= j < flat_refs(p, k).len() ==> {
                let r = #[trigger] flat_refs(p, k)[j];
                &&& 0 <= r.0 < k
                &&& p.shown(r.0 as int, r.1 as int)
            },
    decreases k,
{
    if k > 0 {
        lemma_flat_refs_shape(p, k - 1);
        let prev = flat_refs(p, k - 1);
        assert forall|j: int| 0 <= j < flat_refs(p, k).len() implies {
            let r = #[trigger] flat_refs(p, k)[j];
            &&& 0 <= r.0 < k
            &&& p.shown(r.0 as int, r.1 as int)
        } by {
            if j < prev.len() {
                assert(flat_refs(p, k)[j] == prev[j]);
            } else {
                let i = j - prev.len();
                let len = p.series@[k - 1].points.view().len();
                assert(p.visible(k - 1));
                assert(0 <= i < len);
                assert(flat_refs(p, k)[j] == ((k - 1) as usize, i as usize));
                assert(p.series@[k - 1].wf());
            }
        }
    }
}

/// Flattens the visible series into point references, noting where each
/// visible series starts.
pub fn flatten(p: &Plotter) -> (r: (Vec<(usize, usize)>, Vec<usize>))
    ensures
        r.0@ == flat_refs(p, p.series@.len() as int),
        r.1@ == boundaries_spec(p, p.series@.len() as int),
{
    let mut refs: Vec<(usize, usize)> = Vec::new();
    let mut bounds: Vec<usize> = Vec::new();
    let mut si: usize = 0;
    while si < p.series.len()
        invariant
            0 <= si <= p.series@.len(),
            refs@ == flat_refs(p, si as int),
            bounds@ == boundaries_spec(p, si as int),
        decreases p.series@.len() - si,
    {
        if !p.is_hidden(si) {
            bounds.push(refs.len());
            let n = p.series[si].points.as_slice().len();
            let ghost before = refs@;
            let mut pi: usize = 0;
            while pi < n
                invariant
                    0 <= pi <= n,
                    n == p.series@[si as int].points.view().len(),
                    refs@ == before + Seq::new(pi as nat, |i: int| (si, i as usize)),
                decreases n - pi,
            {
                refs.push((si, pi));
                pi = pi + 1;
                proof {
                    assert(refs@ =~= before + Seq::new(pi as nat, |i: int| (si, i as usize)));
                }
            }
            assert(refs@ =~= flat_refs(p, si + 1));
            assert(bounds@ =~= boundaries_spec(p, si + 1));
        } else {
            assert(refs@ =~= flat_refs(p, si + 1));
            assert(bounds@ =~= boundaries_spec(p, si + 1));
        }
        si = si + 1;
    }
    (refs, bounds)
}

/// The starts of the line segments over the flat point list.
pub fn line_joins(refs: &Vec<(usize, usize)>) -> (r: Vec<usize>)
    ensures
        r@.map_values(|a: usize| a as int) == joins(refs@, refs@.len() as int),
{
    let mut out: Vec<usize> = Vec::new();
    let mut m: usize = 0;
    let n = refs.len();
    while m < n
        invariant
            0 <= m <= n,
            n == refs@.len(),
            out@.map_values(|a: usize| a as int) == joins(refs@, m as int),
        decreases n - m,
    {
        let ghost prev = out@;
        if m + 1 < n && refs[m].0 == refs[m + 1].0 {
            out.push(m);
        }
        proof {
            assert(out@.map_values(|a: usize| a as int) =~= joins(refs@, m + 1));
        }
        m = m + 1;
    }
    out
}

pub open spec fn seq_min(s: Seq<i64>) -> int
    decreases s.len(),
{
    if s.len() == 0 {
        0
    } else if s.len() == 1 {
        s[0] as int
    } else {
        let m = seq_min(s.drop_last());
        if (s.last() as int) < m {
            s.last() as int
        } else {
            m
        }
    }
}

pub open spec fn seq_max(s: Seq<i64>) -> int
    decreases s.len(),
{
    if s.len() == 0 {
        0
    } else if s.len() == 1 {
        s[0] as int
    } else {
        let m = seq_max(s.drop_last());
        if (s.last() as int) > m {
            s.last() as int
        } else {
            m
        }
    }
}

pub open spec fn ys(pts: Seq<PlotPoint>) -> Seq<i64> {
    Seq::new(pts.len(), |i: int| pts[i].y)
}

pub open spec fn explicit_values(mode: ColorMode) -> Option<Seq<i64>> {
    match mode {
        ColorMode::ValueGradient { values, .. } => match values {
            Some(v) => Some(v@),
            None => None,
        },
        ColorMode::Colormap { values, .. } => match values {
            Some(v) => Some(v@),
            None => None,
        },
        _ => None,
    }
}

/// The values whose extent normalises a series' colours: its explicit
/// values when given and not empty, else its Y values.
pub open spec fn norm_values(st: PlotSeries) -> Seq<i64> {
    match explicit_values(st.style.color) {
        Some(v) => if v.len() > 0 {
            v
        } else {
            ys(st.points.view())
        },
        None => ys(st.points.view()),
    }
}

/// The value of point `i`: its explicit value when there is one, else its Y.
pub open spec fn value_of(st: PlotSeries, i: int) -> int {
    match explicit_values(st.style.color) {
        Some(v) => if 0 <= i < v.len() {
            v[i] as int
        } else {
            st.points.view()[i].y as int
        },
        None => st.points.view()[i].y as int,
    }
}

/// The position of point `i` between the extremes of its series, as a
/// fraction; one half when the extremes coincide.
pub open spec fn fraction(st: PlotSeries, i: int) -> (int, int) {
    let lo = seq_min(norm_values(st));
    let hi = seq_max(norm_values(st));
    if lo == hi {
        (1, 2)
    } else {
        (value_of(st, i) - lo, hi - lo)
    }
}

/// The colour of flat point `k`.
pub open spec fn point_color(p: &Plotter, refs: Seq<(usize, usize)>, k: int) -> Color {
    let st = p.series@[refs[k].0 as int];
    let i = refs[k].1 as int;
    let n = refs.len();
    match st.style.color {
        ColorMode::Solid(c) => c,
        ColorMode::ValueGradient { low, high, .. } => lerp_spec(low, high, fraction(st, i).0, fraction(st, i).1),
        ColorMode::IndexGradient { start, end } => if n > 1 {
            lerp_spec(start, end, k, n - 1)
        } else {
            lerp_spec(start, end, 1, 2)
        },
        ColorMode::Colormap { name, .. } => name.sample_spec(fraction(st, i).0, fraction(st, i).1),
    }
}

proof fn lemma_min_max_bounds(s: Seq<i64>)
    requires
        forall|i: int| 0 <= i < s.len() ==> in_domain(#[trigger] s[i] as int),
    ensures
        in_domain(seq_min(s)) && in_domain(seq_max(s)),
        seq_min(s) <= seq_max(s),
    decreases s.len(),
{
    if s.len() > 1 {
        lemma_min_max_bounds(s.drop_last());
    }
}

/// The least and greatest of the values.
pub fn min_max(v: &Vec<i64>) -> (r: (i64, i64))
    ensures
        r.0 == seq_min(v@),
        r.1 == seq_max(v@),
{
    if v.len() == 0 {
        return (0, 0);
    }
    let mut lo = v[0];
    let mut hi = v[0];
    let mut i: usize = 1;
    while i < v.len()
        invariant
            1 <= i <= v@.len(),
            lo == seq_min(v@.take(i as int)),
            hi == seq_max(v@.take(i as int)),
        decreases v@.len() - i,
    {
        assert(v@.take(i + 1).drop_last() =~= v@.take(i as int));
        if v[i] < lo {
            lo = v[i];
        }
        if v[i] > hi {
            hi = v[i];
        }
        i = i + 1;
    }
    assert(v@.take(v@.len() as int) =~= v@);
    (lo, hi)
}

fn y_values(pts: &[PlotPoint]) -> (r: Vec<i64>)
    ensures
        r@ == ys(pts@),
{
    let mut out: Vec<i64> = Vec::new();
    let mut i: usize = 0;
    while i < pts.len()
        invariant
            0 <= i <= pts@.len(),
            out@ == ys(pts@.take(i as int)),
        decreases pts@.len() - i,
    {
        out.push(pts[i].y);
        i = i + 1;
        assert(out@ =~= ys(pts@.take(i as int)));
    }
    assert(pts@.take(pts@.len() as int) =~= pts@);
    out
}

fn norm_range(st: &PlotSeries) -> (r: (i64, i64))
    requires
        st.wf(),
    ensures
        r.0 == seq_min(norm_values(*st)),
        r.1 == seq_max(norm_values(*st)),
        in_domain(r.0 as int) && in_domain(r.1 as int) && r.0 <= r.1,
{
    let explicit = match &st.style.color {
        ColorMode::ValueGradient { values, .. } => values,
        ColorMode::Colormap { values, .. } => values,
        _ => &None,
    };
    let vals = match explicit {
        Some(v) => if v.len() > 0 {
            v.clone()
        } else {
            y_values(st.points.as_slice())
        },
        None => y_values(st.points.as_slice()),
    };
    proof {
        assert(vals@ == norm_values(*st));
        assert forall|i: int| 0 <= i < vals@.len() implies in_domain(#[trigger] vals@[i] as int) by {
            if vals@ == ys(st.points.view()) {
                assert(st.points.view()[i].wf());
            }
        }
        lemma_min_max_bounds(vals@);
    }
    min_max(&vals)
}

fn value_at(st: &PlotSeries, i: usize) -> (v: i64)
    requires
        st.wf(),
        i < st.points.view().len(),
    ensures
        v == value_of(*st, i as int),
        in_domain(v as int),
{
    let explicit = match &st.style.color {
        ColorMode::ValueGradient { values, .. } => values,
        ColorMode::Colormap { values, .. } => values,
        _ => &None,
    };
    proof {
        assert(st.points.view()[i as int].wf());
    }
    match explicit {
        Some(v) => if i < v.len() {
            v[i]
        } else {
            st.points.as_slice()[i].y
        },
        None => st.points.as_slice()[i].y,
    }
}

fn fraction_exec(st: &PlotSeries, i: usize, range: (i64, i64)) -> (r: (i64, i64))
    requires
        st.wf(),
        i < st.points.view().len(),
        range.0 == seq_min(norm_values(*st)),
        range.1 == seq_max(norm_values(*st)),
        in_domain(range.0 as int) && in_domain(range.1 as int) && range.0 <= range.1,
    ensures
        (r.0 as int, r.1 as int) == fraction(*st, i as int),
        0 < r.1 <= 2 * COORD_MAX,
        -2 * COORD_MAX <= r.0 <= 2 * COORD_MAX,
{
    let (lo, hi) = range;
    if lo == hi {
        (1, 2)
    } else {
        let v = value_at(st, i);
        (v - lo, hi - lo)
    }
}

/// The colour of every flat point under its series' colour mode.
pub fn apply_color_mode(p: &Plotter, refs: &Vec<(usize, usize)>) -> (colors: Vec<Color>)
    requires
        p.data_wf(),
        refs@ == flat_refs(p, p.series@.len() as int),
    ensures
        colors@.len() == refs@.len(),
        forall|k: int| 0 <= k < refs@.len() ==> #[trigger] colors@[k] == point_color(p, refs@, k),
{
    let mut ranges: Vec<(i64, i64)> = Vec::new();
    let mut s: usize = 0;
    while s < p.series.len()
        invariant
            p.data_wf(),
            0 <= s <= p.series@.len(),
            ranges@.len() == s,
            forall|j: int|
                0 <= j < s ==> {
                    let r = #[trigger] ranges@[j];
                    &&& r.0 == seq_min(norm_values(p.series@[j]))
                    &&& r.1 == seq_max(norm_values(p.series@[j]))
                    &&& in_domain(r.0 as int) && in_domain(r.1 as int) && r.0 <= r.1
                },
        decreases p.series@.len() - s,
    {
        proof {
            assert(p.series@[s as int].wf());
        }
        ranges.push(norm_range(&p.series[s]));
        s = s + 1;
    }
    proof {
        lemma_flat_refs_shape(p, p.series@.len() as int);
    }
    let n = refs.len();
    let mut colors: Vec<Color> = Vec::new();
    let mut k: usize = 0;
    while k < n
        invariant
            p.data_wf(),
            n == refs@.len(),
            refs@ == flat_refs(p, p.series@.len() as int),
            ranges@.len() == p.series@.len(),
            forall|j: int|
                0 <= j < p.series@.len() ==> {
                    let r = #[trigger] ranges@[j];
                    &&& r.0 == seq_min(norm_values(p.series@[j]))
                    &&& r.1 == seq_max(norm_values(p.series@[j]))
                    &&& in_domain(r.0 as int) && in_domain(r.1 as int) && r.0 <= r.1
                },
            forall|j: int|
                0 <= j < refs@.len() ==> {
                    let r = #[trigger] refs@[j];
                    &&& 0 <= r.0 < p.series@.len()
                    &&& p.shown(r.0 as int, r.1 as int)
                },
            0 <= k <= n,
            colors@.len() == k,
            forall|j: int| 0 <= j < k ==> #[trigger] colors@[j] == point_color(p, refs@, j),
        decreases n - k,
    {
        let (si, i) = refs[k];
        proof {
            assert(refs@[k as int] == (si, i));
            assert(p.series@[si as int].wf());
        }
        let st = &p.series[si];
        let c = match &st.style.color {
            ColorMode::Solid(c) => *c,
            ColorMode::ValueGradient { low, high, .. } => {
                let (num, den) = fraction_exec(st, i, ranges[si]);
                lerp_color(*low, *high, num as i128, den as u128)
            },
            ColorMode::IndexGradient { start, end } => {
                if n > 1 {
                    lerp_color(*start, *end, k as i128, (n - 1) as u128)
                } else {
                    lerp_color(*start, *end, 1, 2)
                }
            },
            ColorMode::Colormap { name, .. } => {
                let (num, den) = fraction_exec(st, i, ranges[si]);
                name.sample(num, den)
            },
        };
        colors.push(c);
        k = k + 1;
    }
    colors
}

/// A widget frame (in pixels) whose plot area, in thousandths of a pixel,
/// is positive and inside the domain.
pub open spec fn sub_frame_ok(viewport: (i64, i64), padding: i64) -> bool {
    &&& 0 <= padding
    &&& viewport.0 > 2 * padding && viewport.0 <= 1_000_000_000
    &&& viewport.1 > 2 * padding && viewport.1 <= 1_000_000_000
}

/// The screen position, in thousandths of a pixel, of data point `(x, y)`.
pub open spec fn sub_screen(
    x: int,
    y: int,
    vx: [i64; 2],
    vy: [i64; 2],
    viewport: (i64, i64),
    padding: i64,
) -> (i64, i64) {
    let r = crate::transform::data_to_screen_spec(
        x,
        y,
        vx,
        vy,
        ((viewport.0 * 1000) as i64, (viewport.1 * 1000) as i64),
        (padding * 1000) as i64,
    );
    (r.0 as i64, r.1 as i64)
}

fn sub_screen_exec(x: i64, y: i64, vx: [i64; 2], vy: [i64; 2], viewport: (i64, i64), padding: i64) -> (r: (i64, i64))
    requires
        sub_frame_ok(viewport, padding),
        view_nonzero(vx) && view_nonzero(vy),
        in_domain(x as int) && in_domain(y as int),
    ensures
        r == sub_screen(x as int, y as int, vx, vy, viewport, padding),
        pt_ok(r),
{
    crate::transform::data_to_screen(x, y, vx, vy, (viewport.0 * 1000, viewport.1 * 1000), padding * 1000)
}

/// The line vertices for the segments starting at `js`: one quad per
/// segment, in the colour of its first point and half its series' width.
pub open spec fn line_quads(
    p: &Plotter,
    refs: Seq<(usize, usize)>,
    screen: Seq<(i64, i64)>,
    colors: Seq<Color>,
    js: Seq<int>,
) -> Seq<RawPoint>
    decreases js.len(),
{
    if js.len() == 0 {
        seq![]
    } else {
        let a = js.last();
        line_quads(p, refs, screen, colors, js.drop_last()) + quad_of(
            screen[a],
            screen[a + 1],
            (p.series@[refs[a].0 as int].style.line_width / 2) as int,
            colors[a],
        )
    }
}

/// Builds the thick-line quads of all segments.
pub fn generate_line_vertices(
    p: &Plotter,
    refs: &Vec<(usize, usize)>,
    screen: &Vec<(i64, i64)>,
    colors: &Vec<Color>,
) -> (r: Vec<RawPoint>)
    requires
        p.data_wf(),
        refs@ == flat_refs(p, p.series@.len() as int),
        screen@.len() == refs@.len(),
        colors@.len() == refs@.len(),
        forall|k: int| 0 <= k < screen@.len() ==> pt_ok(#[trigger] screen@[k]),
    ensures
        r@ == line_quads(p, refs@, screen@, colors@, joins(refs@, refs@.len() as int)),
{
    let js = line_joins(refs);
    let ghost jseq = joins(refs@, refs@.len() as int);
    proof {
        lemma_joins_within_series(refs@, refs@.len() as int);
        lemma_flat_refs_shape(p, p.series@.len() as int);
        assert(js@.len() == jseq.len());
    }
    let mut out: Vec<RawPoint> = Vec::new();
    let mut j: usize = 0;
    let nrefs = refs.len();
    while j < js.len()
        invariant
            nrefs == refs@.len(),
            p.data_wf(),
            refs@ == flat_refs(p, p.series@.len() as int),
            screen@.len() == refs@.len(),
            colors@.len() == refs@.len(),
            forall|k: int| 0 <= k < screen@.len() ==> pt_ok(#[trigger] screen@[k]),
            js@.map_values(|a: usize| a as int) == jseq,
            forall|t: int|
                0 <= t < jseq.len() ==> {
                    let a = #[trigger] jseq[t];
                    0 <= a && a + 1 < refs@.len() && refs@[a].0 == refs@[a + 1].0
                },
            forall|t: int|
                0 <= t < refs@.len() ==> {
                    let r = #[trigger] refs@[t];
                    &&& 0 <= r.0 < p.series@.len()
                },
            0 <= j <= js@.len(),
            out@ == line_quads(p, refs@, screen@, colors@, jseq.take(j as int)),
        decreases js@.len() - j,
    {
        let a = js[j];
        proof {
            assert(jseq[j as int] == a as int);
            let aa = jseq[j as int];
            assert(0 <= aa && aa + 1 < refs@.len());
            assert(jseq.take(j + 1).drop_last() =~= jseq.take(j as int));
        }
        let si = refs[a].0;
        let half = p.series[si].style.line_width / 2;
        push_line_quad(&mut out, screen[a], screen[a + 1], half, colors[a]);
        j = j + 1;
    }
    proof {
        assert(jseq.take(js@.len() as int) =~= jseq);
    }
    out
}

/// Vertical grid lines at the ticks inside the X view range.
pub open spec fn grid_x(
    ticks: Seq<int>,
    vx: [i64; 2],
    vy: [i64; 2],
    viewport: (i64, i64),
    padding: i64,
    half: int,
    color: Color,
) -> Seq<RawPoint>
    decreases ticks.len(),
{
    if ticks.len() == 0 {
        seq![]
    } else {
        let v = ticks.last();
        grid_x(ticks.drop_last(), vx, vy, viewport, padding, half, color) + if vx[0] <= v <= vx[1] {
            let sx = sub_screen(v, vy[0] as int, vx, vy, viewport, padding).0;
            quad_of(
                (sx, (padding * 1000) as i64),
                (sx, ((viewport.1 - padding) * 1000) as i64),
                half,
                color,
            )
        } else {
            seq![]
        }
    }
}

/// Horizontal grid lines at the ticks inside the Y view range.
pub open spec fn grid_y(
    ticks: Seq<int>,
    vx: [i64; 2],
    vy: [i64; 2],
    viewport: (i64, i64),
    padding: i64,
    half: int,
    color: Color,
) -> Seq<RawPoint>
    decreases ticks.len(),
{
    if ticks.len() == 0 {
        seq![]
    } else {
        let v = ticks.last();
        grid_y(ticks.drop_last(), vx, vy, viewport, padding, half, color) + if vy[0] <= v <= vy[1] {
            let sy = sub_screen(vx[0] as int, v, vx, vy, viewport, padding).1;
            quad_of(
                ((padding * 1000) as i64, sy),
                (((viewport.0 - padding) * 1000) as i64, sy),
                half,
                color,
            )
        } else {
            seq![]
        }
    }
}

/// The X axis along the bottom of the plot area and the Y axis along its left.
pub open spec fn axis_lines(o: PlotterOptions, viewport: (i64, i64)) -> Seq<RawPoint> {
    let l = (o.padding * 1000) as i64;
    let t = (o.padding * 1000) as i64;
    let r = ((viewport.0 - o.padding) * 1000) as i64;
    let b = ((viewport.1 - o.padding) * 1000) as i64;
    (if o.x_axis.show {
        quad_of((l, b), (r, b), (o.x_axis.line_width / 2) as int, o.x_axis.color)
    } else {
        seq![]
    }) + (if o.y_axis.show {
        quad_of((l, t), (l, b), (o.y_axis.line_width / 2) as int, o.y_axis.color)
    } else {
        seq![]
    })
}

/// Grid lines (when shown) followed by the axis lines.
pub open spec fn grid_spec(o: PlotterOptions, vx: [i64; 2], vy: [i64; 2], viewport: (i64, i64)) -> Seq<RawPoint> {
    let half = (o.grid.line_width / 2) as int;
    (if o.grid.show {
        grid_x(ticks_of(vx[0] as int, vx[1] as int, o.x_axis.ticks), vx, vy, viewport, o.padding, half, o.grid.color)
            + grid_y(ticks_of(vy[0] as int, vy[1] as int, o.y_axis.ticks), vx, vy, viewport, o.padding, half, o.grid.color)
    } else {
        seq![]
    }) + axis_lines(o, viewport)
}

fn push_grid_x(
    out: &mut Vec<RawPoint>,
    ticks: &Vec<i64>,
    vx: [i64; 2],
    vy: [i64; 2],
    viewport: (i64, i64),
    padding: i64,
    half: u32,
    color: Color,
)
    requires
        sub_frame_ok(viewport, padding),
        view_nonzero(vx) && view_nonzero(vy),
    ensures
        final(out)@ == old(out)@ + grid_x(ticks@.map_values(|v: i64| v as int), vx, vy, viewport, padding, half as int, color),
{
    let ghost ts = ticks@.map_values(|v: i64| v as int);
    let ghost start = out@;
    let mut i: usize = 0;
    while i < ticks.len()
        invariant
            sub_frame_ok(viewport, padding),
            view_nonzero(vx) && view_nonzero(vy),
            ts == ticks@.map_values(|v: i64| v as int),
            0 <= i <= ticks@.len(),
            out@ == start + grid_x(ts.take(i as int), vx, vy, viewport, padding, half as int, color),
        decreases ticks@.len() - i,
    {
        let v = ticks[i];
        proof {
            assert(ts.take(i + 1).drop_last() =~= ts.take(i as int));
            assert(ts.take(i + 1).last() == v as int);
        }
        if vx[0] <= v && v <= vx[1] {
            let (sx, _) = sub_screen_exec(v, vy[0], vx, vy, viewport, padding);
            push_line_quad(out, (sx, padding * 1000), (sx, (viewport.1 - padding) * 1000), half, color);
            proof {
                assert(out@ =~= start + grid_x(ts.take(i + 1), vx, vy, viewport, padding, half as int, color));
            }
        } else {
            proof {
                assert(out@ =~= start + grid_x(ts.take(i + 1), vx, vy, viewport, padding, half as int, color));
            }
        }
        i = i + 1;
    }
    proof {
        assert(ts.take(ticks@.len() as int) =~= ts);
    }
}

fn push_grid_y(
    out: &mut Vec<RawPoint>,
    ticks: &Vec<i64>,
    vx: [i64; 2],
    vy: [i64; 2],
    viewport: (i64, i64),
    padding: i64,
    half: u32,
    color: Color,
)
    requires
        sub_frame_ok(viewport, padding),
        view_nonzero(vx) && view_nonzero(vy),
    ensures
        final(out)@ == old(out)@ + grid_y(ticks@.map_values(|v: i64| v as int), vx, vy, viewport, padding, half as int, color),
{
    let ghost ts = ticks@.map_values(|v: i64| v as int);
    let ghost start = out@;
    let mut i: usize = 0;
    while i < ticks.len()
        invariant
            sub_frame_ok(viewport, padding),
            view_nonzero(vx) && view_nonzero(vy),
            ts == ticks@.map_values(|v: i64| v as int),
            0 <= i <= ticks@.len(),
            out@ == start + grid_y(ts.take(i as int), vx, vy, viewport, padding, half as int, color),
        decreases ticks@.len() - i,
    {
        let v = ticks[i];
        proof {
            assert(ts.take(i + 1).drop_last() =~= ts.take(i as int));
            assert(ts.take(i + 1).last() == v as int);
        }
        if vy[0] <= v && v <= vy[1] {
            let (_, sy) = sub_screen_exec(vx[0], v, vx, vy, viewport, padding);
            push_line_quad(out, (padding * 1000, sy), ((viewport.0 - padding) * 1000, sy), half, color);
            proof {
                assert(out@ =~= start + grid_y(ts.take(i + 1), vx, vy, viewport, padding, half as int, color));
            }
        } else {
            proof {
                assert(out@ =~= start + grid_y(ts.take(i + 1), vx, vy, viewport, padding, half as int, color));
            }
        }
        i = i + 1;
    }
    proof {
        assert(ts.take(ticks@.len() as int) =~= ts);
    }
}

/// Grid lines at the ticks of both axes, then the axis lines.
pub fn generate_grid_vertices(options: &PlotterOptions, vx: [i64; 2], vy: [i64; 2], viewport: (i64, i64)) -> (r: Vec<
    RawPoint,
>)
    requires
        sub_frame_ok(viewport, options.padding),
        view_nonzero(vx) && view_nonzero(vy),
    ensures
        r@ == grid_spec(*options, vx, vy, viewport),
{
    let mut out: Vec<RawPoint> = Vec::new();
    let padding = options.padding;
    if options.grid.show {
        let half = options.grid.line_width / 2;
        let xt = compute_ticks(vx[0], vx[1], &options.x_axis.ticks);
        push_grid_x(&mut out, &xt, vx, vy, viewport, padding, half, options.grid.color);
        let yt = compute_ticks(vy[0], vy[1], &options.y_axis.ticks);
        push_grid_y(&mut out, &yt, vx, vy, viewport, padding, half, options.grid.color);
    }
    let ghost mid = out@;
    let l = padding * 1000;
    let t = padding * 1000;
    let r = (viewport.0 - padding) * 1000;
    let b = (viewport.1 - padding) * 1000;
    if options.x_axis.show {
        push_line_quad(&mut out, (l, b), (r, b), options.x_axis.line_width / 2, options.x_axis.color);
    }
    let ghost mid2 = out@;
    if options.y_axis.show {
        push_line_quad(&mut out, (l, t), (l, b), options.y_axis.line_width / 2, options.y_axis.color);
    }
    proof {
        assert(out@ =~= grid_spec(*options, vx, vy, viewport));
    }
    out
}

pub open spec fn sel_fill() -> Color {
    Color { r: 77, g: 128, b: 204, a: 38 }
}

pub open spec fn sel_border() -> Color {
    Color { r: 102, g: 153, b: 230, a: 204 }
}

pub open spec fn sub_px(v: int) -> i64 {
    saturated(v * 1000) as i64
}

/// The selection overlay between two corners (pixels, relative to the
/// widget): a translucent fill and a one-pixel border on each side.
pub open spec fn selection_spec(a: Point, b: Point) -> Seq<RawPoint> {
    let x0 = sub_px(if a.x <= b.x { a.x as int } else { b.x as int });
    let y0 = sub_px(if a.y <= b.y { a.y as int } else { b.y as int });
    let x1 = sub_px(if a.x <= b.x { b.x as int } else { a.x as int });
    let y1 = sub_px(if a.y <= b.y { b.y as int } else { a.y as int });
    let f = sel_fill();
    let fill = seq![
        RawPoint { position: [x0, y0], color: f, shape: 0 },
        RawPoint { position: [x1, y0], color: f, shape: 0 },
        RawPoint { position: [x0, y1], color: f, shape: 0 },
        RawPoint { position: [x1, y0], color: f, shape: 0 },
        RawPoint { position: [x1, y1], color: f, shape: 0 },
        RawPoint { position: [x0, y1], color: f, shape: 0 },
    ];
    fill + quad_of((x0, y0), (x1, y0), 1000, sel_border()) + quad_of((x0, y1), (x1, y1), 1000, sel_border())
        + quad_of((x0, y0), (x0, y1), 1000, sel_border()) + quad_of((x1, y0), (x1, y1), 1000, sel_border())
}

fn sub_px_exec(v: i64) -> (r: i64)
    ensures
        r == sub_px(v as int),
        in_domain(r as int),
{
    saturate(v as i128 * 1000)
}

/// Builds the selection overlay between two corners.
pub fn generate_selection_rect(start: Point, end: Point) -> (r: Vec<RawPoint>)
    ensures
        r@ == selection_spec(start, end),
{
    let x0 = sub_px_exec(if start.x <= end.x { start.x } else { end.x });
    let y0 = sub_px_exec(if start.y <= end.y { start.y } else { end.y });
    let x1 = sub_px_exec(if start.x <= end.x { end.x } else { start.x });
    let y1 = sub_px_exec(if start.y <= end.y { end.y } else { start.y });
    let f = Color::from_rgba(77, 128, 204, 38);
    let border = Color::from_rgba(102, 153, 230, 204);
    let mut out: Vec<RawPoint> = Vec::new();
    out.push(RawPoint::new(x0, y0, f));
    out.push(RawPoint::new(x1, y0, f));
    out.push(RawPoint::new(x0, y1, f));
    out.push(RawPoint::new(x1, y0, f));
    out.push(RawPoint::new(x1, y1, f));
    out.push(RawPoint::new(x0, y1, f));
    push_line_quad(&mut out, (x0, y0), (x1, y0), 1000, border);
    push_line_quad(&mut out, (x0, y1), (x1, y1), 1000, border);
    push_line_quad(&mut out, (x0, y0), (x0, y1), 1000, border);
    push_line_quad(&mut out, (x1, y0), (x1, y1), 1000, border);
    assert(out@ =~= selection_spec(start, end));
    out
}

/// The transform block handed to the renderer with the markers.
#[derive(Clone, Copy, Debug)]
pub struct Uniforms {
    pub viewport_size: [i64; 2],
    pub x_range: [i64; 2],
    pub y_range: [i64; 2],
    pub padding: [i64; 2],
    pub marker_radius: u32,
    pub line_width: u32,
}

/// Everything drawn in one frame.
pub struct PlotterPrimitive {
    /// One marker per visible point, in data coordinates.
    pub points: Vec<RawPoint>,
    pub line_vertices: Vec<RawPoint>,
    pub uniforms: Uniforms,
    pub config: RenderConfig,
    pub grid_vertices: Vec<RawPoint>,
    pub selection_vertices: Vec<RawPoint>,
    /// Where each visible series starts among the markers.
    pub series_boundaries: Vec<usize>,
    pub tick_info: TickInfo,
}

/// The marker of flat point `k`: its data position, colour and series' shape.
pub open spec fn marker_spec(p: &Plotter, refs: Seq<(usize, usize)>, k: int) -> RawPoint {
    let q = p.pt(refs[k].0 as int, refs[k].1 as int);
    RawPoint {
        position: [q.x, q.y],
        color: point_color(p, refs, k),
        shape: p.series@[refs[k].0 as int].style.marker_shape.code(),
    }
}

/// The screen position of flat point `k`, in thousandths of a pixel.
pub open spec fn screen_spec(
    p: &Plotter,
    refs: Seq<(usize, usize)>,
    k: int,
    vx: [i64; 2],
    vy: [i64; 2],
    viewport: (i64, i64),
) -> (i64, i64) {
    let q = p.pt(refs[k].0 as int, refs[k].1 as int);
    sub_screen(q.x as int, q.y as int, vx, vy, viewport, p.options.padding)
}

/// Whether lines and grid can be mapped to the screen: a plot area of
/// positive size and view ranges of non-zero span.
pub open spec fn drawable(p: &Plotter, viewport: (i64, i64), vx: [i64; 2], vy: [i64; 2]) -> bool {
    sub_frame_ok(viewport, p.options.padding) && view_nonzero(vx) && view_nonzero(vy)
}

impl PlotterPrimitive {
    /// Builds the frame's geometry for the visible series of `p` in a widget
    /// of `bounds`, with the resolved view ranges and an optional selection.
    pub fn new(
        p: &Plotter,
        bounds: Rectangle,
        view_x: [i64; 2],
        view_y: [i64; 2],
        selection_rect: Option<(Point, Point)>,
    ) -> (r: Self)
        requires
            p.data_wf(),
            in_domain(view_x[0] as int) && in_domain(view_x[1] as int),
            in_domain(view_y[0] as int) && in_domain(view_y[1] as int),
        ensures
            ({
                let refs = flat_refs(p, p.series@.len() as int);
                let viewport = (bounds.width, bounds.height);
                &&& r.series_boundaries@ == boundaries_spec(p, p.series@.len() as int)
                &&& r.points@.len() == refs.len()
                &&& forall|k: int| 0 <= k < refs.len() ==> #[trigger] r.points@[k] == marker_spec(p, refs, k)
                &&& if drawable(p, viewport, view_x, view_y) {
                    &&& r.line_vertices@ == line_quads(
                        p,
                        refs,
                        Seq::new(refs.len(), |k: int| screen_spec(p, refs, k, view_x, view_y, viewport)),
                        Seq::new(refs.len(), |k: int| point_color(p, refs, k)),
                        joins(refs, refs.len() as int),
                    )
                    &&& r.grid_vertices@ == grid_spec(p.options, view_x, view_y, viewport)
                } else {
                    r.line_vertices@.len() == 0 && r.grid_vertices@.len() == 0
                }
                &&& r.selection_vertices@ == match selection_rect {
                    Some((a, b)) => selection_spec(a, b),
                    None => seq![],
                }
                &&& r.tick_info.x_ticks@.map_values(|v: i64| v as int) == ticks_of(
                    view_x[0] as int,
                    view_x[1] as int,
                    p.options.x_axis.ticks,
                )
                &&& r.tick_info.y_ticks@.map_values(|v: i64| v as int) == ticks_of(
                    view_y[0] as int,
                    view_y[1] as int,
                    p.options.y_axis.ticks,
                )
                &&& r.uniforms.viewport_size == [bounds.width, bounds.height]
                &&& r.uniforms.x_range == view_x && r.uniforms.y_range == view_y
                &&& r.uniforms.padding == [p.options.padding, p.options.padding]
                &&& r.uniforms.marker_radius == (if p.series@.len() > 0 {
                    p.series@[0].style.marker_size
                } else {
                    4000
                })
                &&& r.uniforms.line_width == (if p.series@.len() > 0 {
                    p.series@[0].style.line_width
                } else {
                    2000
                })
                &&& r.config.show_markers && r.config.show_lines
            }),
    {
        let (refs, series_boundaries) = flatten(p);
        let colors = apply_color_mode(p, &refs);
        proof {
            lemma_flat_refs_shape(p, p.series@.len() as int);
        }
        let n = refs.len();
        let mut points: Vec<RawPoint> = Vec::new();
        let mut k: usize = 0;
        while k < n
            invariant
                p.data_wf(),
                n == refs@.len(),
                refs@ == flat_refs(p, p.series@.len() as int),
                colors@.len() == n,
                forall|j: int| 0 <= j < n ==> #[trigger] colors@[j] == point_color(p, refs@, j),
                forall|t: int|
                    0 <= t < refs@.len() ==> {
                        let r = #[trigger] refs@[t];
                        &&& 0 <= r.0 < p.series@.len()
                        &&& p.shown(r.0 as int, r.1 as int)
                    },
                0 <= k <= n,
                points@.len() == k,
                forall|j: int| 0 <= j < k ==> #[trigger] points@[j] == marker_spec(p, refs@, j),
            decreases n - k,
        {
            let (si, i) = refs[k];
            proof {
                assert(refs@[k as int] == (si, i));
            }
            let q = p.series[si].points.as_slice()[i];
            let shape = p.series[si].style.marker_shape.as_u32();
            points.push(RawPoint::with_shape(q.x, q.y, colors[k], shape));
            k = k + 1;
        }
        let padding = p.options.padding;
        let viewport = (bounds.width, bounds.height);
        let ok = 0 <= padding && padding <= 1_000_000_000 && viewport.0 > 2 * padding && viewport.0 <= 1_000_000_000
            && viewport.1 > 2 * padding && viewport.1 <= 1_000_000_000 && view_x[0] != view_x[1] && view_y[0]
            != view_y[1];
        let (line_vertices, grid_vertices) = if ok {
            let mut screen: Vec<(i64, i64)> = Vec::new();
            let mut k: usize = 0;
            while k < n
                invariant
                    p.data_wf(),
                    n == refs@.len(),
                    refs@ == flat_refs(p, p.series@.len() as int),
                    forall|t: int|
                        0 <= t < refs@.len() ==> {
                            let r = #[trigger] refs@[t];
                            &&& 0 <= r.0 < p.series@.len()
                            &&& p.shown(r.0 as int, r.1 as int)
                        },
                    drawable(p, viewport, view_x, view_y),
                    padding == p.options.padding,
                    0 <= k <= n,
                    screen@.len() == k,
                    forall|j: int|
                        0 <= j < k ==> #[trigger] screen@[j] == screen_spec(p, refs@, j, view_x, view_y, viewport),
                    forall|j: int| 0 <= j < k ==> pt_ok(#[trigger] screen@[j]),
                decreases n - k,
            {
                let (si, i) = refs[k];
                proof {
                    assert(refs@[k as int] == (si, i));
                    assert(p.series@[si as int].wf());
                    assert(p.series@[si as int].points.view()[i as int].wf());
                }
                let q = p.series[si].points.as_slice()[i];
                screen.push(sub_screen_exec(q.x, q.y, view_x, view_y, viewport, padding));
                k = k + 1;
            }
            let lines = generate_line_vertices(p, &refs, &screen, &colors);
            let grid = generate_grid_vertices(&p.options, view_x, view_y, viewport);
            proof {
                let refs_s = refs@;
                assert(screen@ =~= Seq::new(refs_s.len(), |k: int| screen_spec(p, refs_s, k, view_x, view_y, viewport)));
                assert(colors@ =~= Seq::new(refs_s.len(), |k: int| point_color(p, refs_s, k)));
            }
            (lines, grid)
        } else {
            (Vec::new(), Vec::new())
        };
        let selection_vertices = match selection_rect {
            Some((a, b)) => generate_selection_rect(a, b),
            None => Vec::new(),
        };
        let x_ticks = compute_ticks(view_x[0], view_x[1], &p.options.x_axis.ticks);
        let y_ticks = compute_ticks(view_y[0], view_y[1], &p.options.y_axis.ticks);
        let marker_radius = if p.series.len() > 0 {
            p.series[0].style.marker_size
        } else {
            4000
        };
        let line_width = if p.series.len() > 0 {
            p.series[0].style.line_width
        } else {
            2000
        };
        let uniforms = Uniforms {
            viewport_size: [bounds.width, bounds.height],
            x_range: view_x,
            y_range: view_y,
            padding: [padding, padding],
            marker_radius,
            line_width,
        };
        PlotterPrimitive {
            points,
            line_vertices,
            uniforms,
            config: RenderConfig { show_markers: true, show_lines: true },
            grid_vertices,
            selection_vertices,
            series_boundaries,
            tick_info: TickInfo { x_ticks, y_ticks },
        }
    }
}

proof fn lemma_mix_ends(a: u8, b: u8, d: int)
    requires
        d > 0,
    ensures
        mix(a, b, 0, d) == a,
        mix(a, b, d, d) == b,
{
    assert((a * (d - 0) + b * 0) / d == a) by (nonlinear_arith)
        requires
            d > 0,
    {
        assert(a * (d - 0) + b * 0 == a * d);
        vstd::arithmetic::div_mod::lemma_div_multiples_vanish(a as int, d);
    }
    assert((a * (d - d) + b * d) / d == b) by (nonlinear_arith)
        requires
            d > 0,
    {
        assert(a * (d - d) + b * d == b * d);
        vstd::arithmetic::div_mod::lemma_div_multiples_vanish(b as int, d);
    }
}

/// A gradient at the start of its range gives the start colour, at the end
/// the end colour (both opaque).
pub proof fn lemma_lerp_ends(low: Color, high: Color, d: int)
    requires
        d > 0,
    ensures
        lerp_spec(low, high, 0, d) == (Color { r: low.r, g: low.g, b: low.b, a: 255 }),
        lerp_spec(low, high, d, d) == (Color { r: high.r, g: high.g, b: high.b, a: 255 }),
{
    lemma_mix_ends(low.r, high.r, d);
    lemma_mix_ends(low.g, high.g, d);
    lemma_mix_ends(low.b, high.b, d);
}

/// A colour map sampled at the start of any range gives its colour at 0,
/// and at the end of the range its colour at 1.
pub proof fn lemma_colormap_ends(name: ColormapName, d: int)
    requires
        d > 0,
    ensures
        name.sample_spec(0, d) == name.sample_spec(0, 1),
        name.sample_spec(d, d) == name.sample_spec(1, 1),
{
    assert(d * 255 / d == 255) by (nonlinear_arith)
        requires
            d > 0,
    {
        vstd::arithmetic::div_mod::lemma_div_multiples_vanish(255, d);
    }
    assert(d * 1000 >= 1000 * d) by (nonlinear_arith);
    let st = crate::colormap::colormap_stops(name);
    assert(st[0].pos == 0 && st.last().pos == 1000);
    assert(!(d * 1000 <= st[0].pos * d)) by (nonlinear_arith)
        requires
            st[0].pos == 0,
            d > 0,
    ;
    assert(d * 1000 >= st.last().pos * d) by (nonlinear_arith)
        requires
            st.last().pos == 1000,
    ;
}

/// Under a value gradient or a colour map, the point holding the smallest
/// value of its series takes the low colour (the map's colour at 0), and
/// the point holding the largest value the high colour (the map's colour at 1).
pub proof fn lemma_gradient_endpoints(st: PlotSeries, i: int)
    requires
        seq_min(norm_values(st)) < seq_max(norm_values(st)),
    ensures
        value_of(st, i) == seq_min(norm_values(st)) ==> match st.style.color {
            ColorMode::ValueGradient { low, high, .. } => lerp_spec(low, high, fraction(st, i).0, fraction(st, i).1)
                == (Color { r: low.r, g: low.g, b: low.b, a: 255 }),
            ColorMode::Colormap { name, .. } => name.sample_spec(fraction(st, i).0, fraction(st, i).1)
                == name.sample_spec(0, 1),
            _ => true,
        },
        value_of(st, i) == seq_max(norm_values(st)) ==> match st.style.color {
            ColorMode::ValueGradient { low, high, .. } => lerp_spec(low, high, fraction(st, i).0, fraction(st, i).1)
                == (Color { r: high.r, g: high.g, b: high.b, a: 255 }),
            ColorMode::Colormap { name, .. } => name.sample_spec(fraction(st, i).0, fraction(st, i).1)
                == name.sample_spec(1, 1),
            _ => true,
        },
{
    let d = seq_max(norm_values(st)) - seq_min(norm_values(st));
    match st.style.color {
        ColorMode::ValueGradient { low, high, .. } => lemma_lerp_ends(low, high, d),
        ColorMode::Colormap { name, .. } => lemma_colormap_ends(name, d),
        _ => {},
    }
}

} // verus!

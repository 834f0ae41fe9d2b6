//! Plot data, styles, view state, interaction settings, and the resolution
//! of the visible ranges from them.
use vstd::prelude::*;

use crate::colormap::{lerp_color, lerp_spec, Color, ColormapName};
use crate::ticks::TickConfig;
use crate::transform::{
    bounds_ok, clamp_range_to_bounds, clamp_spec, fraction_ok, saturate, saturated,
};
use crate::{in_domain, COORD_MAX, PER_MILLE, UNIT};
use std::collections::HashSet;

verus! {

/// The visible range of the plot. `None` on an axis means "fit the data".
#[derive(Clone, Copy, Debug)]
pub struct ViewState {
    pub x_range: Option<(i64, i64)>,
    pub y_range: Option<(i64, i64)>,
}

impl ViewState {
    pub fn auto_fit() -> (v: Self)
        ensures
            v.x_range.is_none() && v.y_range.is_none(),
    {
        ViewState { x_range: None, y_range: None }
    }

    pub fn with_ranges(x_range: (i64, i64), y_range: (i64, i64)) -> (v: Self)
        ensures
            v.x_range == Some(x_range) && v.y_range == Some(y_range),
    {
        ViewState { x_range: Some(x_range), y_range: Some(y_range) }
    }

    pub fn with_x_range(self, range: Option<(i64, i64)>) -> (v: Self)
        ensures
            v.x_range == range && v.y_range == self.y_range,
    {
        ViewState { x_range: range, ..self }
    }

    pub fn with_y_range(self, range: Option<(i64, i64)>) -> (v: Self)
        ensures
            v.y_range == range && v.x_range == self.x_range,
    {
        ViewState { y_range: range, ..self }
    }

    /// Both explicit ranges, if any, lie inside the domain.
    pub open spec fn wf(&self) -> bool {
        &&& (self.x_range matches Some(r) ==> in_domain(r.0 as int) && in_domain(r.1 as int))
        &&& (self.y_range matches Some(r) ==> in_domain(r.0 as int) && in_domain(r.1 as int))
    }
}

/// Which interactions are enabled, and how they behave. Fractions are in
/// thousandths; durations in milliseconds.
#[derive(Clone, Copy, Debug)]
pub struct InteractionConfig {
    pub pan_x: bool,
    pub pan_y: bool,
    pub zoom_x: bool,
    pub zoom_y: bool,
    /// Hard limits for the X range. `None` = no limits.
    pub x_bounds: Option<(i64, i64)>,
    /// Hard limits for the Y range. `None` = no limits.
    pub y_bounds: Option<(i64, i64)>,
    /// Slack allowed beyond the bounds, as thousandths of the bounds' span.
    pub boundary_padding: u32,
    /// Zoom per scroll line, in thousandths.
    pub zoom_speed: u32,
    pub double_click_to_fit: bool,
    pub zoom_select: bool,
    pub elastic: bool,
    /// Largest overscroll, as thousandths of the view span.
    pub elastic_limit: u32,
    pub elastic_duration_ms: u64,
}

impl InteractionConfig {
    pub open spec fn wf(&self) -> bool {
        &&& bounds_ok(self.x_bounds)
        &&& bounds_ok(self.y_bounds)
        &&& fraction_ok(self.boundary_padding)
        &&& fraction_ok(self.elastic_limit)
    }

    /// No interaction at all.
    pub fn none() -> (c: Self)
        ensures
            c.wf(),
            c == (InteractionConfig {
                pan_x: false,
                zoom_x: false,
                double_click_to_fit: false,
                zoom_select: false,
                elastic: false,
                ..default_config()
            }),
            !c.pan_x && !c.pan_y && !c.zoom_x && !c.zoom_y,
            !c.double_click_to_fit && !c.zoom_select && !c.elastic,
            c.x_bounds.is_none() && c.y_bounds.is_none(),
            c.boundary_padding == 50 && c.zoom_speed == 100,
            c.elastic_limit == 300 && c.elastic_duration_ms == 200,
    {
        InteractionConfig {
            pan_x: false,
            pan_y: false,
            zoom_x: false,
            zoom_y: false,
            x_bounds: None,
            y_bounds: None,
            boundary_padding: 50,
            zoom_speed: 100,
            double_click_to_fit: false,
            zoom_select: false,
            elastic: false,
            elastic_limit: 300,
            elastic_duration_ms: 200,
        }
    }

    /// Pan and zoom on both axes, the other settings as by default.
    pub fn full() -> (c: Self)
        ensures
            c.wf(),
            c == (InteractionConfig { pan_y: true, zoom_y: true, ..default_config() }),
            c.pan_x && c.pan_y && c.zoom_x && c.zoom_y,
            c.double_click_to_fit && c.zoom_select && c.elastic,
            c.x_bounds.is_none() && c.y_bounds.is_none(),
            c.boundary_padding == 50 && c.zoom_speed == 100,
            c.elastic_limit == 300 && c.elastic_duration_ms == 200,
    {
        InteractionConfig { pan_x: true, pan_y: true, zoom_x: true, zoom_y: true, ..Self::default() }
    }

    /// Pan and zoom on X, Y fitted to the data (for time series).
    pub fn pan_x_autofit_y() -> (c: Self)
        ensures
            c.wf(),
            c == default_config(),
            c.pan_x && !c.pan_y && c.zoom_x && !c.zoom_y,
            c.double_click_to_fit && c.zoom_select && c.elastic,
            c.x_bounds.is_none() && c.y_bounds.is_none(),
            c.boundary_padding == 50 && c.zoom_speed == 100,
            c.elastic_limit == 300 && c.elastic_duration_ms == 200,
    {
        Self::default()
    }
}

/// The default settings: pan and zoom on X only, double click to fit,
/// selection zoom and elastic bounds on.
pub open spec fn default_config() -> InteractionConfig {
    InteractionConfig {
        pan_x: true,
        pan_y: false,
        zoom_x: true,
        zoom_y: false,
        x_bounds: None,
        y_bounds: None,
        boundary_padding: 50,
        zoom_speed: 100,
        double_click_to_fit: true,
        zoom_select: true,
        elastic: true,
        elastic_limit: 300,
        elastic_duration_ms: 200,
    }
}

impl Default for InteractionConfig {
    fn default() -> (c: Self)
        ensures
            c.wf(),
            c == default_config(),
            c.pan_x && !c.pan_y && c.zoom_x && !c.zoom_y,
            c.double_click_to_fit && c.zoom_select && c.elastic,
            c.x_bounds.is_none() && c.y_bounds.is_none(),
            c.boundary_padding == 50 && c.zoom_speed == 100,
            c.elastic_limit == 300 && c.elastic_duration_ms == 200,
    {
        InteractionConfig {
            pan_x: true,
            pan_y: false,
            zoom_x: true,
            zoom_y: false,
            x_bounds: None,
            y_bounds: None,
            boundary_padding: 50,
            zoom_speed: 100,
            double_click_to_fit: true,
            zoom_select: true,
            elastic: true,
            elastic_limit: 300,
            elastic_duration_ms: 200,
        }
    }
}

/// Shape of the markers drawn for a series.
#[derive(Clone, Copy, Debug, PartialEq, Eq, Structural)]
pub enum MarkerShape {
    Circle,
    Square,
    Diamond,
    TriangleUp,
    TriangleDown,
    Cross,
    Plus,
    /// No marker is drawn.
    NoMarker,
}

impl MarkerShape {
    pub open spec fn code(self) -> u32 {
        match self {
            MarkerShape::Circle => 0,
            MarkerShape::Square => 1,
            MarkerShape::Diamond => 2,
            MarkerShape::TriangleUp => 3,
            MarkerShape::TriangleDown => 4,
            MarkerShape::Cross => 5,
            MarkerShape::Plus => 6,
            MarkerShape::NoMarker => 7,
        }
    }

    /// The shape's code as the renderer reads it.
    pub fn as_u32(self) -> (r: u32)
        ensures
            r == self.code(),
    {
        match self {
            MarkerShape::Circle => 0,
            MarkerShape::Square => 1,
            MarkerShape::Diamond => 2,
            MarkerShape::TriangleUp => 3,
            MarkerShape::TriangleDown => 4,
            MarkerShape::Cross => 5,
            MarkerShape::Plus => 6,
            MarkerShape::NoMarker => 7,
        }
    }
}

/// Pattern of the lines drawn for a series.
#[derive(Clone, Copy, Debug, PartialEq, Eq, Structural)]
pub enum LinePattern {
    Solid,
    Dashed,
    Dotted,
    DashDot,
    /// No line is drawn.
    NoLine,
}

impl LinePattern {
    pub open spec fn code(self) -> u32 {
        match self {
            LinePattern::Solid => 0,
            LinePattern::Dashed => 1,
            LinePattern::Dotted => 2,
            LinePattern::DashDot => 3,
            LinePattern::NoLine => 4,
        }
    }

    /// The pattern's code as the renderer reads it.
    pub fn as_u32(self) -> (r: u32)
        ensures
            r == self.code(),
    {
        match self {
            LinePattern::Solid => 0,
            LinePattern::Dashed => 1,
            LinePattern::Dotted => 2,
            LinePattern::DashDot => 3,
            LinePattern::NoLine => 4,
        }
    }
}

/// Corner of the plot area that holds the legend.
#[derive(Clone, Copy, Debug, PartialEq, Eq, Structural)]
pub enum LegendPosition {
    TopRight,
    TopLeft,
    BottomRight,
    BottomLeft,
}

impl Default for LegendPosition {
    fn default() -> (p: Self)
        ensures
            p == LegendPosition::TopRight,
    {
        LegendPosition::TopRight
    }
}

/// How the points of a series are coloured.
#[derive(Clone, Debug)]
pub enum ColorMode {
    /// One colour for every point.
    Solid(Color),
    /// Blend from `low` to `high` by value: the point's Y, or its entry in
    /// `values` when given.
    ValueGradient { low: Color, high: Color, values: Option<Vec<i64>> },
    /// Blend from `start` to `end` by the point's position in the plot.
    IndexGradient { start: Color, end: Color },
    /// Sample a named colour map by value, as for `ValueGradient`.
    Colormap { name: ColormapName, values: Option<Vec<i64>> },
}

impl ColorMode {
    pub fn solid(color: Color) -> (m: Self)
        ensures
            m == ColorMode::Solid(color),
    {
        ColorMode::Solid(color)
    }

    pub fn value_gradient(low: Color, high: Color) -> (m: Self)
        ensures
            m == (ColorMode::ValueGradient { low, high, values: None }),
    {
        ColorMode::ValueGradient { low, high, values: None }
    }

    pub fn value_gradient_values(low: Color, high: Color, values: Vec<i64>) -> (m: Self)
        ensures
            m == (ColorMode::ValueGradient { low, high, values: Some(values) }),
    {
        ColorMode::ValueGradient { low, high, values: Some(values) }
    }

    pub fn index_gradient(start: Color, end: Color) -> (m: Self)
        ensures
            m == (ColorMode::IndexGradient { start, end }),
    {
        ColorMode::IndexGradient { start, end }
    }

    pub fn colormap(name: ColormapName) -> (m: Self)
        ensures
            m == (ColorMode::Colormap { name, values: None }),
    {
        ColorMode::Colormap { name, values: None }
    }

    pub fn colormap_values(name: ColormapName, values: Vec<i64>) -> (m: Self)
        ensures
            m == (ColorMode::Colormap { name, values: Some(values) }),
    {
        ColorMode::Colormap { name, values: Some(values) }
    }

    /// The single colour that stands for the mode (in a legend): the colour
    /// itself, the midpoint blend of a gradient's ends, or the map at one half.
    pub open spec fn representative_spec(&self) -> Color {
        match self {
            ColorMode::Solid(c) => *c,
            ColorMode::ValueGradient { low, high, .. } => lerp_spec(*low, *high, 1, 2),
            ColorMode::IndexGradient { start, end } => lerp_spec(*start, *end, 1, 2),
            ColorMode::Colormap { name, .. } => name.sample_spec(1, 2),
        }
    }

    pub fn representative_color(&self) -> (c: Color)
        ensures
            c == self.representative_spec(),
    {
        match self {
            ColorMode::Solid(c) => *c,
            ColorMode::ValueGradient { low, high, .. } => lerp_color(*low, *high, 1, 2),
            ColorMode::IndexGradient { start, end } => lerp_color(*start, *end, 1, 2),
            ColorMode::Colormap { name, .. } => name.sample(1, 2),
        }
    }

    /// Explicit values, if any, lie inside the domain.
    pub open spec fn wf(&self) -> bool {
        match self {
            ColorMode::ValueGradient { values: Some(v), .. } => forall|i: int|
                0 <= i < v@.len() ==> in_domain(#[trigger] v@[i] as int),
            ColorMode::Colormap { values: Some(v), .. } => forall|i: int|
                0 <= i < v@.len() ==> in_domain(#[trigger] v@[i] as int),
            _ => true,
        }
    }
}

/// Styling of a series. Sizes are in thousandths of a pixel.
#[derive(Clone, Debug)]
pub struct SeriesStyle {
    pub color: ColorMode,
    pub marker_shape: MarkerShape,
    pub marker_size: u32,
    pub line_pattern: LinePattern,
    pub line_width: u32,
}

impl SeriesStyle {
    pub fn new(color: ColorMode) -> (s: Self)
        ensures
            s.color == color,
            s.marker_shape == MarkerShape::Circle,
            s.marker_size == 4000,
            s.line_pattern == LinePattern::Solid,
            s.line_width == 2000,
    {
        SeriesStyle {
            color,
            marker_shape: MarkerShape::Circle,
            marker_size: 4000,
            line_pattern: LinePattern::Solid,
            line_width: 2000,
        }
    }

    pub fn with_marker_shape(self, shape: MarkerShape) -> (s: Self)
        ensures
            s == (SeriesStyle { marker_shape: shape, ..self }),
    {
        SeriesStyle { marker_shape: shape, ..self }
    }

    pub fn with_marker_size(self, size: u32) -> (s: Self)
        ensures
            s == (SeriesStyle { marker_size: size, ..self }),
    {
        SeriesStyle { marker_size: size, ..self }
    }

    pub fn with_line_pattern(self, pattern: LinePattern) -> (s: Self)
        ensures
            s == (SeriesStyle { line_pattern: pattern, ..self }),
    {
        SeriesStyle { line_pattern: pattern, ..self }
    }

    pub fn with_line_width(self, width: u32) -> (s: Self)
        ensures
            s == (SeriesStyle { line_width: width, ..self }),
    {
        SeriesStyle { line_width: width, ..self }
    }
}

impl Default for SeriesStyle {
    fn default() -> (s: Self)
        ensures
            s.color == ColorMode::Solid(Color { r: 255, g: 255, b: 255, a: 255 }),
            s.marker_shape == MarkerShape::Circle,
            s.marker_size == 4000,
            s.line_pattern == LinePattern::Solid,
            s.line_width == 2000,
    {
        SeriesStyle::new(ColorMode::Solid(Color::white()))
    }
}

/// A data point in fixed-point coordinates.
#[derive(Clone, Copy, Debug, PartialEq, Eq, Structural)]
pub struct PlotPoint {
    pub x: i64,
    pub y: i64,
}

impl PlotPoint {
    pub open spec fn wf(&self) -> bool {
        in_domain(self.x as int) && in_domain(self.y as int)
    }
}

/// The `i`-th of `n` evenly spaced sample positions over `x_range`.
pub open spec fn sample_x(x_range: (i64, i64), n: int, i: int) -> int {
    let steps = if n - 1 > 1 {
        n - 1
    } else {
        1
    };
    x_range.0 + i * (x_range.1 - x_range.0) / steps
}

/// Points sampled from a function at evenly spaced positions.
#[derive(Debug)]
pub struct ExplicitGenerator {
    pub x_range: (i64, i64),
    pub points: usize,
    pub samples: Vec<PlotPoint>,
}

/// The points of a series: owned, borrowed, or sampled from a function.
pub enum PlotPoints<'a> {
    Owned(Vec<PlotPoint>),
    Borrowed(&'a [PlotPoint]),
    Generator(ExplicitGenerator),
}

impl<'a> PlotPoints<'a> {
    pub open spec fn view(&self) -> Seq<PlotPoint> {
        match self {
            PlotPoints::Owned(v) => v@,
            PlotPoints::Borrowed(s) => s@,
            PlotPoints::Generator(g) => g.samples@,
        }
    }

    pub open spec fn wf(&self) -> bool {
        &&& self.view().len() <= COORD_MAX
        &&& self.view().len() <= usize::MAX
        &&& forall|i: int| 0 <= i < self.view().len() ==> (#[trigger] self.view()[i]).wf()
    }

    pub fn owned(points: Vec<PlotPoint>) -> (p: Self)
        ensures
            p.view() == points@,
            p is Owned,
    {
        PlotPoints::Owned(points)
    }

    pub fn borrowed(points: &'a [PlotPoint]) -> (p: Self)
        ensures
            p.view() == points@,
            p is Borrowed,
    {
        PlotPoints::Borrowed(points)
    }

    /// Samples `function` at `points` evenly spaced positions over `x_range`.
    pub fn generator<F: Fn(i64) -> i64>(function: F, x_range: (i64, i64), points: usize) -> (p: Self)
        requires
            in_domain(x_range.0 as int) && in_domain(x_range.1 as int),
            forall|x: i64| function.requires((x,)),
            forall|x: i64, y: i64| function.ensures((x,), y) ==> in_domain(y as int),
            points <= COORD_MAX,
        ensures
            p is Generator,
            p.wf(),
            p.view().len() == points,
            forall|i: int|
                0 <= i < points ==> (#[trigger] p.view()[i]).x == sample_x(x_range, points as int, i)
                    && function.ensures((p.view()[i].x,), p.view()[i].y),
    {
        let steps: i64 = if points > 2 {
            (points - 1) as i64
        } else {
            1
        };
        let mut samples: Vec<PlotPoint> = Vec::new();
        let mut i: usize = 0;
        while i < points
            invariant
                0 <= i <= points,
                samples@.len() == i,
                points <= COORD_MAX,
                steps == (if points - 1 > 1 {
                    points - 1
                } else {
                    1int
                }),
                in_domain(x_range.0 as int) && in_domain(x_range.1 as int),
                forall|x: i64| function.requires((x,)),
                forall|x: i64, y: i64| function.ensures((x,), y) ==> in_domain(y as int),
                forall|k: int| 0 <= k < i ==> (#[trigger] samples@[k]).wf(),
                forall|k: int|
                    0 <= k < i ==> (#[trigger] samples@[k]).x == sample_x(x_range, points as int, k)
                        && function.ensures((samples@[k].x,), samples@[k].y),
            decreases points - i,
        {
            let x = sample_at(x_range, steps, i);
            let y = function(x);
            samples.push(PlotPoint { x, y });
            i = i + 1;
        }
        PlotPoints::Generator(ExplicitGenerator { x_range, points, samples })
    }

    /// The points as a slice.
    pub fn as_slice(&self) -> (s: &[PlotPoint])
        ensures
            s@ == self.view(),
    {
        match self {
            PlotPoints::Owned(v) => v.as_slice(),
            PlotPoints::Borrowed(s) => s,
            PlotPoints::Generator(g) => g.samples.as_slice(),
        }
    }

    /// The Y of the last stored point (for a legend); none for a generator.
    pub fn last_y(&self) -> (r: Option<i64>)
        ensures
            self is Generator ==> r.is_none(),
            !(self is Generator) ==> r == (if self.view().len() == 0 {
                None
            } else {
                Some(self.view().last().y)
            }),
    {
        match self {
            PlotPoints::Generator(_) => None,
            _ => {
                let s = self.as_slice();
                if s.len() == 0 {
                    None
                } else {
                    Some(s[s.len() - 1].y)
                }
            },
        }
    }
}

fn sample_at(x_range: (i64, i64), steps: i64, i: usize) -> (x: i64)
    requires
        in_domain(x_range.0 as int) && in_domain(x_range.1 as int),
        1 <= steps,
        i <= steps,
    ensures
        x == x_range.0 + i * (x_range.1 - x_range.0) / (steps as int),
        in_domain(x as int),
{
    let span = x_range.1 - x_range.0;
    assert(-2 * COORD_MAX * 0x8000_0000_0000_0000 <= (i as i128) * (span as i128) <= 2 * COORD_MAX
        * 0x8000_0000_0000_0000) by (nonlinear_arith)
        requires
            0 <= i <= steps,
            steps < 0x8000_0000_0000_0000,
            -2 * COORD_MAX <= span <= 2 * COORD_MAX,
    ;
    let n = (i as i128) * (span as i128);
    let q = crate::transform::floor_div(n, steps as i128);
    assert(q * steps <= n < q * steps + steps) by (nonlinear_arith)
        requires
            q == (n as int) / (steps as int),
            steps >= 1,
    {
        vstd::arithmetic::div_mod::lemma_fundamental_div_mod(n as int, steps as int);
        vstd::arithmetic::div_mod::lemma_mod_bound(n as int, steps as int);
    }
    if span >= 0 {
        assert(0 <= q <= span) by (nonlinear_arith)
            requires
                q * steps <= n < q * steps + steps,
                n == i * span,
                0 <= i <= steps,
                span >= 0,
                steps >= 1,
        {
            assert(n <= steps * span);
        }
    } else {
        assert(span <= q <= 0) by (nonlinear_arith)
            requires
                q * steps <= n < q * steps + steps,
                n == i * span,
                0 <= i <= steps,
                span < 0,
                steps >= 1,
        {
            assert(n >= steps * span);
        }
    }
    (x_range.0 as i128 + q) as i64
}

/// A labelled data series with its style.
pub struct PlotSeries<'a> {
    pub label: String,
    pub style: SeriesStyle,
    pub points: PlotPoints<'a>,
}

impl<'a> PlotSeries<'a> {
    pub fn new(label: String, points: PlotPoints<'a>) -> (s: Self)
        ensures
            s.label == label,
            s.points == points,
            s.style.color == ColorMode::Solid(Color { r: 255, g: 255, b: 255, a: 255 }),
            s.style.marker_shape == MarkerShape::Circle,
            s.style.marker_size == 4000,
            s.style.line_pattern == LinePattern::Solid,
            s.style.line_width == 2000,
    {
        PlotSeries { label, style: SeriesStyle::default(), points }
    }

    pub fn with_style(self, style: SeriesStyle) -> (s: Self)
        ensures
            s.style == style,
            s.label == self.label,
            s.points == self.points,
    {
        PlotSeries { style, ..self }
    }

    pub open spec fn wf(&self) -> bool {
        self.points.wf() && self.style.color.wf()
    }
}

/// Grid lines drawn at the ticks. Widths are in thousandths of a pixel.
#[derive(Clone, Copy, Debug)]
pub struct GridStyle {
    pub show: bool,
    pub color: Color,
    pub line_width: u32,
}

pub open spec fn default_grid() -> GridStyle {
    GridStyle { show: true, color: Color { r: 255, g: 255, b: 255, a: 26 }, line_width: 1000 }
}

impl Default for GridStyle {
    fn default() -> (g: Self)
        ensures
            g == default_grid(),
    {
        GridStyle { show: true, color: Color::from_rgba(255, 255, 255, 26), line_width: 1000 }
    }
}

/// One axis: its line, labels, ticks and title. Sizes are in thousandths of
/// a pixel.
#[derive(Clone, Debug)]
pub struct AxisConfig {
    pub show: bool,
    pub color: Color,
    pub line_width: u32,
    pub label_color: Color,
    pub label_size: u32,
    pub ticks: TickConfig,
    pub title: Option<String>,
    pub title_color: Color,
    pub title_size: u32,
}

pub open spec fn default_axis() -> AxisConfig {
    AxisConfig {
        show: true,
        color: Color { r: 255, g: 255, b: 255, a: 255 },
        line_width: 1500,
        label_color: Color { r: 255, g: 255, b: 255, a: 179 },
        label_size: 12000,
        ticks: TickConfig { min_ticks: 4, max_ticks: 10 },
        title: None,
        title_color: Color { r: 255, g: 255, b: 255, a: 179 },
        title_size: 14000,
    }
}

impl Default for AxisConfig {
    fn default() -> (a: Self)
        ensures
            a == default_axis(),
    {
        AxisConfig {
            show: true,
            color: Color::white(),
            line_width: 1500,
            label_color: Color::from_rgba(255, 255, 255, 179),
            label_size: 12000,
            ticks: TickConfig::default(),
            title: None,
            title_color: Color::from_rgba(255, 255, 255, 179),
            title_size: 14000,
        }
    }
}

impl AxisConfig {
    pub fn with_title(self, title: String) -> (a: Self)
        ensures
            a.title == Some(title),
            a.show == self.show && a.ticks == self.ticks,
    {
        AxisConfig { title: Some(title), ..self }
    }

    pub fn with_title_color(self, color: Color) -> (a: Self)
        ensures
            a.title_color == color,
            a.title == self.title && a.ticks == self.ticks,
    {
        AxisConfig { title_color: color, ..self }
    }

    pub fn with_title_size(self, size: u32) -> (a: Self)
        ensures
            a.title_size == size,
            a.title == self.title && a.ticks == self.ticks,
    {
        AxisConfig { title_size: size, ..self }
    }
}

/// Style of the legend. Sizes are in thousandths of a pixel.
#[derive(Clone, Copy, Debug)]
pub struct LegendConfig {
    pub position: LegendPosition,
    pub text_color: Color,
    pub text_size: u32,
    pub background_color: Color,
    /// Space inside the legend box.
    pub padding: u32,
    /// Distance from the plot edge.
    pub margin: u32,
    /// Side of the colour toggle square.
    pub toggle_size: u32,
    /// Whether the latest value follows each label.
    pub show_value: bool,
}

pub open spec fn default_legend() -> LegendConfig {
    LegendConfig {
        position: LegendPosition::TopRight,
        text_color: Color { r: 255, g: 255, b: 255, a: 179 },
        text_size: 12000,
        background_color: Color { r: 26, g: 26, b: 26, a: 204 },
        padding: 8000,
        margin: 10000,
        toggle_size: 12000,
        show_value: true,
    }
}

impl Default for LegendConfig {
    fn default() -> (c: Self)
        ensures
            c == default_legend(),
    {
        LegendConfig {
            position: LegendPosition::TopRight,
            text_color: Color::from_rgba(255, 255, 255, 179),
            text_size: 12000,
            background_color: Color::from_rgba(26, 26, 26, 204),
            padding: 8000,
            margin: 10000,
            toggle_size: 12000,
            show_value: true,
        }
    }
}

/// Style of hover tooltips. Sizes and distances are in thousandths of a pixel.
#[derive(Clone, Copy, Debug)]
pub struct TooltipConfig {
    /// Largest screen distance at which a point is picked.
    pub max_distance: u32,
    pub background_color: Color,
    pub text_color: Color,
    pub text_size: u32,
    pub padding: u32,
    /// Ring drawn around the hovered point.
    pub highlight_color: Color,
    pub highlight_radius: u32,
    pub highlight_width: u32,
}

pub open spec fn default_tooltip() -> TooltipConfig {
    TooltipConfig {
        max_distance: 10000,
        background_color: Color { r: 26, g: 26, b: 26, a: 230 },
        text_color: Color { r: 255, g: 255, b: 255, a: 230 },
        text_size: 12000,
        padding: 6000,
        highlight_color: Color { r: 255, g: 255, b: 255, a: 204 },
        highlight_radius: 8000,
        highlight_width: 2000,
    }
}

impl Default for TooltipConfig {
    fn default() -> (c: Self)
        ensures
            c == default_tooltip(),
    {
        TooltipConfig {
            max_distance: 10000,
            background_color: Color::from_rgba(26, 26, 26, 230),
            text_color: Color::from_rgba(255, 255, 255, 230),
            text_size: 12000,
            padding: 6000,
            highlight_color: Color::from_rgba(255, 255, 255, 204),
            highlight_radius: 8000,
            highlight_width: 2000,
        }
    }
}

/// Layout and style of the plot. `padding` is in pixels; `autofit_padding`
/// is the margin added around the data when fitting, in thousandths of its span.
#[derive(Clone, Debug)]
pub struct PlotterOptions {
    pub padding: i64,
    pub grid: GridStyle,
    pub x_axis: AxisConfig,
    pub y_axis: AxisConfig,
    pub autofit_padding: u32,
    pub background_color: Option<Color>,
    /// The legend, when shown.
    pub legend: Option<LegendConfig>,
    /// Hover tooltips, when shown.
    pub tooltip: Option<TooltipConfig>,
}

impl PlotterOptions {
    pub open spec fn wf(&self) -> bool {
        fraction_ok(self.autofit_padding)
    }
}

pub open spec fn default_options() -> PlotterOptions {
    PlotterOptions {
        padding: 50,
        grid: default_grid(),
        x_axis: default_axis(),
        y_axis: default_axis(),
        autofit_padding: 50,
        background_color: Some(Color { r: 0, g: 0, b: 0, a: 38 }),
        legend: None,
        tooltip: None,
    }
}

impl Default for PlotterOptions {
    fn default() -> (o: Self)
        ensures
            o.wf(),
            o == default_options(),
    {
        PlotterOptions {
            padding: 50,
            grid: GridStyle::default(),
            x_axis: AxisConfig::default(),
            y_axis: AxisConfig::default(),
            autofit_padding: 50,
            background_color: Some(Color::from_rgba(0, 0, 0, 38)),
            legend: None,
            tooltip: None,
        }
    }
}

/// The visible range on one axis: the explicit range, clamped into its
/// bounds (or the data's) when `clamp_on`; else the data range widened by
/// `af_pm` thousandths of its span on each side.
pub open spec fn fit_axis(
    explicit: Option<(i64, i64)>,
    data: [i64; 2],
    clamp_on: bool,
    bounds: Option<(i64, i64)>,
    pad_pm: int,
    af_pm: int,
) -> (int, int) {
    match explicit {
        Some(r) => if clamp_on {
            let b = match bounds {
                Some(b) => b,
                None => (data[0], data[1]),
            };
            let c = clamp_spec((r.0 as int, r.1 as int), Some(b), pad_pm);
            (saturated(c.0), saturated(c.1))
        } else {
            (r.0 as int, r.1 as int)
        },
        None => {
            let m = (data[1] - data[0]) * af_pm / PER_MILLE as int;
            (saturated(data[0] - m), saturated(data[1] + m))
        },
    }
}

/// A plot: its series, options, the current view and the interaction settings.
pub struct Plotter<'a> {
    pub series: Vec<PlotSeries<'a>>,
    pub options: PlotterOptions,
    pub view_state: ViewState,
    pub interaction: InteractionConfig,
    /// Indices of the series that are toggled off.
    pub hidden_series: HashSet<usize>,
}

impl<'a> Plotter<'a> {
    /// The series are within the size limits and their points in the domain.
    pub open spec fn data_wf(&self) -> bool {
        &&& self.series@.len() <= COORD_MAX
        &&& self.series@.len() <= usize::MAX
        &&& forall|i: int| 0 <= i < self.series@.len() ==> (#[trigger] self.series@[i]).wf()
    }

    /// The data as `data_wf`, and the view, options and interaction settings valid.
    pub open spec fn wf(&self) -> bool {
        &&& self.data_wf()
        &&& self.options.wf()
        &&& self.view_state.wf()
        &&& self.interaction.wf()
    }

    pub open spec fn visible(&self, s: int) -> bool {
        !self.hidden_series@.contains(s as usize)
    }

    pub open spec fn pt(&self, s: int, p: int) -> PlotPoint {
        self.series@[s].points.view()[p]
    }

    /// Point `p` of series `s` exists and its series is visible.
    pub open spec fn shown(&self, s: int, p: int) -> bool {
        &&& 0 <= s < self.series@.len()
        &&& self.visible(s)
        &&& 0 <= p < self.series@[s].points.view().len()
    }

    pub open spec fn has_data(&self) -> bool {
        exists|s: int, p: int| #[trigger] self.shown(s, p)
    }

    pub open spec fn is_min_x(&self, v: int) -> bool {
        &&& forall|s: int, p: int| self.shown(s, p) ==> v <= #[trigger] self.pt(s, p).x
        &&& exists|s: int, p: int| self.shown(s, p) && #[trigger] self.pt(s, p).x == v
    }

    pub open spec fn is_max_x(&self, v: int) -> bool {
        &&& forall|s: int, p: int| self.shown(s, p) ==> #[trigger] self.pt(s, p).x <= v
        &&& exists|s: int, p: int| self.shown(s, p) && #[trigger] self.pt(s, p).x == v
    }

    pub open spec fn is_min_y(&self, v: int) -> bool {
        &&& forall|s: int, p: int| self.shown(s, p) ==> v <= #[trigger] self.pt(s, p).y
        &&& exists|s: int, p: int| self.shown(s, p) && #[trigger] self.pt(s, p).y == v
    }

    pub open spec fn is_max_y(&self, v: int) -> bool {
        &&& forall|s: int, p: int| self.shown(s, p) ==> #[trigger] self.pt(s, p).y <= v
        &&& exists|s: int, p: int| self.shown(s, p) && #[trigger] self.pt(s, p).y == v
    }

    /// The bounding box of the visible points; the unit box when there are
    /// none; a flat Y extent widened by half a unit each way.
    pub open spec fn data_ranges_spec(&self, x: [i64; 2], y: [i64; 2]) -> bool {
        if !self.has_data() {
            x[0] == 0 && x[1] == UNIT && y[0] == 0 && y[1] == UNIT
        } else {
            &&& self.is_min_x(x[0] as int)
            &&& self.is_max_x(x[1] as int)
            &&& exists|lo: int, hi: int|
                self.is_min_y(lo) && self.is_max_y(hi) && if lo == hi {
                    y[0] == saturated(lo - UNIT / 2) && y[1] == saturated(hi + UNIT / 2)
                } else {
                    y[0] == lo && y[1] == hi
                }
        }
    }

    pub fn new(series: Vec<PlotSeries<'a>>, view_state: &ViewState) -> (p: Self)
        ensures
            p.series@ == series@,
            p.view_state == *view_state,
            p.hidden_series@ == Set::<usize>::empty(),
            p.options == default_options(),
            p.interaction == default_config(),
            p.interaction.wf() && p.options.wf(),
    {
        Plotter {
            series,
            options: PlotterOptions::default(),
            view_state: *view_state,
            interaction: InteractionConfig::default(),
            hidden_series: HashSet::new(),
        }
    }

    pub fn with_hidden_series(self, hidden: HashSet<usize>) -> (p: Self)
        ensures
            p.hidden_series == hidden,
            p.series == self.series,
            p.view_state == self.view_state,
            p.interaction == self.interaction,
            p.options == self.options,
    {
        Plotter { hidden_series: hidden, ..self }
    }

    pub fn with_options(self, options: PlotterOptions) -> (p: Self)
        ensures
            p.options == options,
            p.series == self.series,
            p.view_state == self.view_state,
            p.interaction == self.interaction,
            p.hidden_series == self.hidden_series,
    {
        Plotter { options, ..self }
    }

    pub fn with_interaction(self, interaction: InteractionConfig) -> (p: Self)
        ensures
            p.interaction == interaction,
            p.series == self.series,
            p.view_state == self.view_state,
            p.options == self.options,
            p.hidden_series == self.hidden_series,
    {
        Plotter { interaction, ..self }
    }

    /// Whether series `index` is toggled off.
    pub fn is_hidden(&self, index: usize) -> (r: bool)
        ensures
            r == self.hidden_series@.contains(index),
    {
        broadcast use vstd::std_specs::hash::group_hash_axioms;

        self.hidden_series.contains(&index)
    }

    /// The bounding box of all visible points.
    pub fn compute_data_ranges(&self) -> (r: ([i64; 2], [i64; 2]))
        requires
            self.data_wf(),
        ensures
            self.data_ranges_spec(r.0, r.1),
            in_domain(r.0[0] as int) && in_domain(r.0[1] as int) && r.0[0] <= r.0[1],
            in_domain(r.1[0] as int) && in_domain(r.1[1] as int) && r.1[0] <= r.1[1],
    {
        let mut found = false;
        let mut x_min: i64 = 0;
        let mut x_max: i64 = 0;
        let mut y_min: i64 = 0;
        let mut y_max: i64 = 0;
        let mut si: usize = 0;
        while si < self.series.len()
            invariant
                self.data_wf(),
                0 <= si <= self.series@.len(),
                found == exists|s: int, p: int| #[trigger] self.shown(s, p) && s < si,
                found ==> forall|s: int, p: int|
                    self.shown(s, p) && s < si ==> x_min <= #[trigger] self.pt(s, p).x <= x_max
                        && y_min <= self.pt(s, p).y <= y_max,
                found ==> exists|s: int, p: int| self.shown(s, p) && s < si && #[trigger] self.pt(s, p).x == x_min,
                found ==> exists|s: int, p: int| self.shown(s, p) && s < si && #[trigger] self.pt(s, p).x == x_max,
                found ==> exists|s: int, p: int| self.shown(s, p) && s < si && #[trigger] self.pt(s, p).y == y_min,
                found ==> exists|s: int, p: int| self.shown(s, p) && s < si && #[trigger] self.pt(s, p).y == y_max,
                in_domain(x_min as int) && in_domain(x_max as int),
                in_domain(y_min as int) && in_domain(y_max as int),
            decreases self.series@.len() - si,
        {
            if !self.is_hidden(si) {
                let pts = self.series[si].points.as_slice();
                let mut pi: usize = 0;
                while pi < pts.len()
                    invariant
                        self.data_wf(),
                        0 <= si < self.series@.len(),
                        self.visible(si as int),
                        pts@ == self.series@[si as int].points.view(),
                        0 <= pi <= pts@.len(),
                        found == exists|s: int, p: int|
                            #[trigger] self.shown(s, p) && (s < si || (s == si && p < pi)),
                        found ==> forall|s: int, p: int|
                            self.shown(s, p) && (s < si || (s == si && p < pi)) ==> x_min
                                <= #[trigger] self.pt(s, p).x <= x_max && y_min <= self.pt(s, p).y <= y_max,
                        found ==> exists|s: int, p: int|
                            self.shown(s, p) && (s < si || (s == si && p < pi)) && #[trigger] self.pt(s, p).x
                                == x_min,
                        found ==> exists|s: int, p: int|
                            self.shown(s, p) && (s < si || (s == si && p < pi)) && #[trigger] self.pt(s, p).x
                                == x_max,
                        found ==> exists|s: int, p: int|
                            self.shown(s, p) && (s < si || (s == si && p < pi)) && #[trigger] self.pt(s, p).y
                                == y_min,
                        found ==> exists|s: int, p: int|
                            self.shown(s, p) && (s < si || (s == si && p < pi)) && #[trigger] self.pt(s, p).y
                                == y_max,
                        in_domain(x_min as int) && in_domain(x_max as int),
                        in_domain(y_min as int) && in_domain(y_max as int),
                    decreases pts@.len() - pi,
                {
                    let q = pts[pi];
                    proof {
                        assert(self.shown(si as int, pi as int));
                        assert(self.pt(si as int, pi as int) == q);
                        assert(self.series@[si as int].wf());
                        assert(q.wf());
                    }
                    if !found {
                        x_min = q.x;
                        x_max = q.x;
                        y_min = q.y;
                        y_max = q.y;
                        found = true;
                    } else {
                        if q.x < x_min {
                            x_min = q.x;
                        }
                        if q.x > x_max {
                            x_max = q.x;
                        }
                        if q.y < y_min {
                            y_min = q.y;
                        }
                        if q.y > y_max {
                            y_max = q.y;
                        }
                    }
                    pi = pi + 1;
                }
            }
            si = si + 1;
        }
        if !found {
            return ([0, UNIT], [0, UNIT]);
        }
        proof {
            assert(self.has_data());
            assert(self.is_min_x(x_min as int));
            assert(self.is_max_x(x_max as int));
            assert(self.is_min_y(y_min as int));
            assert(self.is_max_y(y_max as int));
        }
        if y_min == y_max {
            let lo = saturate(y_min as i128 - (UNIT / 2) as i128);
            let hi = saturate(y_max as i128 + (UNIT / 2) as i128);
            ([x_min, x_max], [lo, hi])
        } else {
            ([x_min, x_max], [y_min, y_max])
        }
    }

    /// Whether the explicit range of an axis is clamped into bounds when
    /// resolving: only for steady frames, with elastic panning on that axis.
    pub open spec fn clamps(&self, enforce_bounds: bool, x_axis: bool) -> bool {
        enforce_bounds && self.interaction.elastic && if x_axis {
            self.interaction.pan_x
        } else {
            self.interaction.pan_y
        }
    }

    /// The visible ranges for a frame, with the data's bounding box:
    /// `(view_x, view_y, data_x, data_y)`.
    pub fn resolve_view_ranges(&self, enforce_bounds: bool) -> (r: ([i64; 2], [i64; 2], [i64; 2], [i64; 2]))
        requires
            self.wf(),
        ensures
            self.data_ranges_spec(r.2, r.3),
            in_domain(r.2[0] as int) && in_domain(r.2[1] as int) && r.2[0] <= r.2[1],
            in_domain(r.3[0] as int) && in_domain(r.3[1] as int) && r.3[0] <= r.3[1],
            (r.0[0] as int, r.0[1] as int) == fit_axis(
                self.view_state.x_range,
                r.2,
                self.clamps(enforce_bounds, true),
                self.interaction.x_bounds,
                self.interaction.boundary_padding as int,
                self.options.autofit_padding as int,
            ),
            (r.1[0] as int, r.1[1] as int) == fit_axis(
                self.view_state.y_range,
                r.3,
                self.clamps(enforce_bounds, false),
                self.interaction.y_bounds,
                self.interaction.boundary_padding as int,
                self.options.autofit_padding as int,
            ),
            in_domain(r.0[0] as int) && in_domain(r.0[1] as int),
            in_domain(r.1[0] as int) && in_domain(r.1[1] as int),
    {
        let (data_x, data_y) = self.compute_data_ranges();
        let view_x = resolve_axis(
            self.view_state.x_range,
            data_x,
            enforce_bounds && self.interaction.elastic && self.interaction.pan_x,
            self.interaction.x_bounds,
            self.interaction.boundary_padding,
            self.options.autofit_padding,
        );
        let view_y = resolve_axis(
            self.view_state.y_range,
            data_y,
            enforce_bounds && self.interaction.elastic && self.interaction.pan_y,
            self.interaction.y_bounds,
            self.interaction.boundary_padding,
            self.options.autofit_padding,
        );
        (view_x, view_y, data_x, data_y)
    }
}

/// What the legend shows for one series.
#[derive(Clone, Copy, Debug)]
pub struct LegendEntry {
    pub series_index: usize,
    /// The colour that stands for the series' colour mode.
    pub color: Color,
    /// The Y of the series' last stored point.
    pub latest_value: Option<i64>,
    /// The series is toggled off.
    pub hidden: bool,
}

impl<'a> Plotter<'a> {
    /// One legend entry per series, in order.
    pub fn legend_entries(&self) -> (r: Vec<LegendEntry>)
        ensures
            r@.len() == self.series@.len(),
            forall|i: int|
                0 <= i < r@.len() ==> {
                    let e = #[trigger] r@[i];
                    let s = self.series@[i];
                    &&& e.series_index == i
                    &&& e.color == s.style.color.representative_spec()
                    &&& e.hidden == !self.visible(i)
                    &&& e.latest_value == (if s.points is Generator || s.points.view().len() == 0 {
                        None
                    } else {
                        Some(s.points.view().last().y)
                    })
                },
    {
        let mut out: Vec<LegendEntry> = Vec::new();
        let mut i: usize = 0;
        while i < self.series.len()
            invariant
                0 <= i <= self.series@.len(),
                out@.len() == i,
                forall|j: int|
                    0 <= j < i ==> {
                        let e = #[trigger] out@[j];
                        let s = self.series@[j];
                        &&& e.series_index == j
                        &&& e.color == s.style.color.representative_spec()
                        &&& e.hidden == !self.visible(j)
                        &&& e.latest_value == (if s.points is Generator || s.points.view().len() == 0 {
                            None
                        } else {
                            Some(s.points.view().last().y)
                        })
                    },
            decreases self.series@.len() - i,
        {
            let s = &self.series[i];
            out.push(
                LegendEntry {
                    series_index: i,
                    color: s.style.color.representative_color(),
                    latest_value: s.points.last_y(),
                    hidden: self.is_hidden(i),
                },
            );
            i = i + 1;
        }
        out
    }
}

fn resolve_axis(
    explicit: Option<(i64, i64)>,
    data: [i64; 2],
    clamp_on: bool,
    bounds: Option<(i64, i64)>,
    pad_pm: u32,
    af_pm: u32,
) -> (r: [i64; 2])
    requires
        explicit matches Some(e) ==> in_domain(e.0 as int) && in_domain(e.1 as int),
        in_domain(data[0] as int) && in_domain(data[1] as int) && data[0] <= data[1],
        bounds_ok(bounds),
        fraction_ok(pad_pm),
        fraction_ok(af_pm),
    ensures
        (r[0] as int, r[1] as int) == fit_axis(explicit, data, clamp_on, bounds, pad_pm as int, af_pm as int),
        in_domain(r[0] as int) && in_domain(r[1] as int),
{
    match explicit {
        Some(e) => {
            if clamp_on {
                let b = match bounds {
                    Some(b) => b,
                    None => (data[0], data[1]),
                };
                let c = clamp_range_to_bounds(e, Some(b), pad_pm);
                [saturate(c.0 as i128), saturate(c.1 as i128)]
            } else {
                [e.0, e.1]
            }
        },
        None => {
            let span = (data[1] - data[0]) as u64;
            assert(span * (af_pm as u64) <= 2 * COORD_MAX * 1000) by (nonlinear_arith)
                requires
                    span <= 2 * COORD_MAX,
                    af_pm <= 1000,
            ;
            let m = span * (af_pm as u64) / (PER_MILLE as u64);
            assert(m <= span) by (nonlinear_arith)
                requires
                    m == span * (af_pm as u64) / 1000,
                    af_pm <= 1000,
            ;
            [saturate(data[0] as i128 - m as i128), saturate(data[1] as i128 + m as i128)]
        },
    }
}

} // verus!
use std::collections::HashSet;

use iced_plotter::colormap::{Color, ColormapName};
use iced_plotter::plotter::{
    ColorMode, InteractionConfig, LegendConfig, LegendPosition, PlotterOptions, TooltipConfig, LinePattern, MarkerShape, PlotPoint, PlotPoints, PlotSeries,
    Plotter, SeriesStyle, ViewState,
};
use iced_plotter::shader::{flatten, generate_selection_rect, isqrt, line_joins, PlotterPrimitive};
use iced_plotter::transform::{Point, Rectangle};

fn pts(v: &[(i64, i64)]) -> Vec<PlotPoint> {
    v.iter().map(|&(x, y)| PlotPoint { x, y }).collect()
}

fn frame() -> Rectangle {
    Rectangle { x: 0, y: 0, width: 500, height: 400 }
}

fn two_series() -> Vec<PlotSeries<'static>> {
    vec![
        PlotSeries::new("a".to_string(), PlotPoints::owned(pts(&[(0, 0), (1000, 1000), (2000, 0)]))),
        PlotSeries::new(
            "b".to_string(),
            PlotPoints::owned(pts(&[(0, 2000), (1000, 3000), (2000, 2000)])),
        ),
    ]
}

#[test]
fn lines_never_join_two_series() {
    let view = ViewState::auto_fit();
    let plotter = Plotter::new(two_series(), &view);
    let (refs, bounds) = flatten(&plotter);
    assert_eq!(bounds, vec![0, 3]);
    let joins = line_joins(&refs);
    assert_eq!(joins, vec![0, 1, 3, 4]);
    for a in joins {
        assert_eq!(refs[a].0, refs[a + 1].0);
    }
    let prim = PlotterPrimitive::new(&plotter, frame(), [-100, 2100], [-150, 3150], None);
    assert_eq!(prim.series_boundaries, vec![0, 3]);
    assert_eq!(prim.points.len(), 6);
    // Four segments, one quad (six vertices) each.
    assert_eq!(prim.line_vertices.len(), 24);
}

#[test]
fn hidden_series_are_left_out() {
    let view = ViewState::auto_fit();
    let plotter = Plotter::new(two_series(), &view).with_hidden_series(HashSet::from([0]));
    let (refs, bounds) = flatten(&plotter);
    assert_eq!(bounds, vec![0]);
    assert_eq!(refs, vec![(1, 0), (1, 1), (1, 2)]);
    assert_eq!(plotter.compute_data_ranges(), ([0, 2000], [2000, 3000]));
}

#[test]
fn constant_series_value_gradient_is_midpoint() {
    let blue = Color::from_rgb(0, 0, 255);
    let red = Color::from_rgb(255, 0, 0);
    let s = PlotSeries::new(
        "flat".to_string(),
        PlotPoints::owned(pts(&[(0, 3000), (1000, 3000), (2000, 3000)])),
    )
    .with_style(SeriesStyle::new(ColorMode::value_gradient(blue, red)));
    let view = ViewState::auto_fit();
    let plotter = Plotter::new(vec![s], &view);
    let prim = PlotterPrimitive::new(&plotter, frame(), [-100, 2100], [2500, 3500], None);
    for p in &prim.points {
        assert_eq!(p.color, Color::from_rgb(127, 0, 127));
    }
}

#[test]
fn value_gradient_endpoints() {
    let low = Color::from_rgb(10, 20, 30);
    let high = Color::from_rgb(200, 100, 50);
    let s = PlotSeries::new(
        "g".to_string(),
        PlotPoints::owned(pts(&[(0, 500), (1000, -250), (2000, 1750), (3000, 0)])),
    )
    .with_style(SeriesStyle::new(ColorMode::value_gradient(low, high)));
    let view = ViewState::auto_fit();
    let plotter = Plotter::new(vec![s], &view);
    let prim = PlotterPrimitive::new(&plotter, frame(), [0, 3000], [-250, 1750], None);
    assert_eq!(prim.points[1].color, low);
    assert_eq!(prim.points[2].color, high);
    // 500 is 3/8 of the way from -250 to 1750.
    assert_eq!(prim.points[0].color, Color::from_rgb(81, 50, 37));
}

#[test]
fn colormap_with_explicit_values() {
    let s = PlotSeries::new(
        "c".to_string(),
        PlotPoints::owned(pts(&[(0, 0), (1000, 0), (2000, 0)])),
    )
    .with_style(SeriesStyle::new(ColorMode::colormap_values(ColormapName::Heat, vec![5, 10, 15])));
    let view = ViewState::auto_fit();
    let plotter = Plotter::new(vec![s], &view);
    let prim = PlotterPrimitive::new(&plotter, frame(), [0, 2000], [-500, 500], None);
    assert_eq!(prim.points[0].color, ColormapName::Heat.sample(0, 1));
    assert_eq!(prim.points[1].color, Color::from_rgb(255, 0, 0));
    assert_eq!(prim.points[2].color, ColormapName::Heat.sample(1, 1));
}

#[test]
fn index_gradient_over_all_points() {
    let start = Color::from_rgb(0, 0, 0);
    let end = Color::from_rgb(200, 100, 0);
    let s = PlotSeries::new(
        "i".to_string(),
        PlotPoints::owned(pts(&[(0, 0), (1000, 1000), (2000, 2000)])),
    )
    .with_style(SeriesStyle::new(ColorMode::index_gradient(start, end)));
    let view = ViewState::auto_fit();
    let plotter = Plotter::new(vec![s], &view);
    let prim = PlotterPrimitive::new(&plotter, frame(), [0, 2000], [0, 2000], None);
    assert_eq!(prim.points[0].color, start);
    assert_eq!(prim.points[1].color, Color::from_rgb(100, 50, 0));
    assert_eq!(prim.points[2].color, end);
}

#[test]
fn markers_carry_position_and_shape() {
    let s = PlotSeries::new("m".to_string(), PlotPoints::owned(pts(&[(7, 9)])))
        .with_style(SeriesStyle::new(ColorMode::solid(Color::white())).with_marker_shape(MarkerShape::Diamond));
    let view = ViewState::auto_fit();
    let plotter = Plotter::new(vec![s], &view);
    let prim = PlotterPrimitive::new(&plotter, frame(), [0, 1000], [0, 1000], None);
    assert_eq!(prim.points[0].position, [7, 9]);
    assert_eq!(prim.points[0].shape, 2);
    assert_eq!(MarkerShape::NoMarker.as_u32(), 7);
    assert_eq!(LinePattern::DashDot.as_u32(), 3);
}

#[test]
fn horizontal_segment_quad() {
    let s = PlotSeries::new("h".to_string(), PlotPoints::owned(pts(&[(0, 500), (1000, 500)])));
    let view = ViewState::auto_fit();
    let plotter = Plotter::new(vec![s], &view);
    let prim = PlotterPrimitive::new(&plotter, frame(), [0, 1000], [0, 1000], None);
    let v: Vec<[i64; 2]> = prim.line_vertices.iter().map(|p| p.position).collect();
    // From (50, 200) px to (450, 200) px, in thousandths, widened by 1 px.
    assert_eq!(
        v,
        vec![
            [50_000, 201_000],
            [50_000, 199_000],
            [450_000, 201_000],
            [50_000, 199_000],
            [450_000, 199_000],
            [450_000, 201_000]
        ]
    );
}

#[test]
fn coincident_points_make_no_segment() {
    let s = PlotSeries::new("z".to_string(), PlotPoints::owned(pts(&[(100, 100), (100, 100)])));
    let view = ViewState::auto_fit();
    let plotter = Plotter::new(vec![s], &view);
    let prim = PlotterPrimitive::new(&plotter, frame(), [0, 1000], [0, 1000], None);
    assert!(prim.line_vertices.is_empty());
}

#[test]
fn grid_and_ticks() {
    let view = ViewState::auto_fit();
    let plotter = Plotter::new(two_series(), &view);
    let prim = PlotterPrimitive::new(&plotter, frame(), [0, 10_000], [0, 10_000], None);
    assert_eq!(prim.tick_info.x_ticks, vec![0, 2000, 4000, 6000, 8000, 10_000]);
    // Six grid lines per axis plus the two axes, one quad each.
    assert_eq!(prim.grid_vertices.len(), (6 + 6 + 2) * 6);
}

#[test]
fn degenerate_view_draws_no_lines() {
    let view = ViewState::auto_fit();
    let plotter = Plotter::new(two_series(), &view);
    let prim = PlotterPrimitive::new(&plotter, frame(), [5, 5], [0, 10], None);
    assert!(prim.line_vertices.is_empty() && prim.grid_vertices.is_empty());
    assert_eq!(prim.tick_info.x_ticks, vec![5]);
}

#[test]
fn selection_overlay() {
    let v = generate_selection_rect(Point::new(300, 250), Point::new(100, 100));
    assert_eq!(v.len(), 6 + 4 * 6);
    assert_eq!(v[0].position, [100_000, 100_000]);
    assert_eq!(v[4].position, [300_000, 250_000]);
    assert_eq!(v[0].color, Color::from_rgba(77, 128, 204, 38));
}

#[test]
fn data_ranges_edge_cases() {
    let view = ViewState::auto_fit();
    let empty = Plotter::new(vec![], &view);
    assert_eq!(empty.compute_data_ranges(), ([0, 1000], [0, 1000]));
    let flat = Plotter::new(
        vec![PlotSeries::new("f".to_string(), PlotPoints::owned(pts(&[(1, 3000), (9, 3000)])))],
        &view,
    );
    assert_eq!(flat.compute_data_ranges(), ([1, 9], [2500, 3500]));
    let (vx, vy, _, _) = flat.resolve_view_ranges(true);
    // 5% auto-fit margin on each side.
    assert_eq!(vx, [1, 9]);
    assert_eq!(vy, [2450, 3550]);
}

#[test]
fn resolve_clamps_explicit_range_when_steady() {
    let view = ViewState::with_ranges((-5000, 0), (0, 1000));
    let s = PlotSeries::new("d".to_string(), PlotPoints::owned(pts(&[(0, 0), (10_000, 1000)])));
    let plotter = Plotter::new(vec![s], &view).with_interaction(InteractionConfig::default());
    let (vx, _, dx, _) = plotter.resolve_view_ranges(true);
    assert_eq!(dx, [0, 10_000]);
    assert_eq!(vx, [-500, 4500]);
    let (vx, _, _, _) = plotter.resolve_view_ranges(false);
    assert_eq!(vx, [-5000, 0]);
}

#[test]
fn generator_samples_evenly() {
    let p = PlotPoints::generator(|x| 2 * x, (0, 1000), 3);
    assert_eq!(p.as_slice().iter().map(|q| (q.x, q.y)).collect::<Vec<_>>(), vec![(0, 0), (500, 1000), (1000, 2000)]);
    assert_eq!(p.last_y(), None);
    let o = PlotPoints::owned(pts(&[(1, 2), (3, 4)]));
    assert_eq!(o.last_y(), Some(4));
    let b = pts(&[(5, 6)]);
    assert_eq!(PlotPoints::borrowed(&b).last_y(), Some(6));
}

#[test]
fn integer_square_root() {
    assert_eq!(isqrt(0), 0);
    assert_eq!(isqrt(15), 3);
    assert_eq!(isqrt(16), 4);
    assert_eq!(isqrt(1_000_000_000_000), 1_000_000);
}

#[test]
fn legend_entries_per_series() {
    let view = ViewState::auto_fit();
    let mut series = two_series();
    series.push(PlotSeries::new("gen".to_string(), PlotPoints::generator(|x| x, (0, 10), 2)));
    let plotter = Plotter::new(series, &view).with_hidden_series(HashSet::from([1]));
    let e = plotter.legend_entries();
    assert_eq!(e.len(), 3);
    assert_eq!(e[0].latest_value, Some(0));
    assert_eq!(e[1].latest_value, Some(2000));
    assert_eq!(e[2].latest_value, None);
    assert!(!e[0].hidden && e[1].hidden && !e[2].hidden);
    assert_eq!(e[0].color, Color::white());
    assert_eq!(e[2].series_index, 2);
}

#[test]
fn reversed_view_still_draws_lines() {
    let view = ViewState::auto_fit();
    let plotter = Plotter::new(two_series(), &view);
    let prim = PlotterPrimitive::new(&plotter, frame(), [2100, -100], [-150, 3150], None);
    assert_eq!(prim.line_vertices.len(), 24);
    // Mirrored: data x 2100 is at the left edge of the plot area.
    let s = PlotSeries::new("h".to_string(), PlotPoints::owned(pts(&[(0, 500), (1000, 500)])));
    let plotter = Plotter::new(vec![s], &view);
    let prim = PlotterPrimitive::new(&plotter, frame(), [1000, 0], [0, 1000], None);
    assert_eq!(prim.line_vertices[0].position[0], 450_000);
    assert_eq!(prim.line_vertices[2].position[0], 50_000);
}

#[test]
fn uniforms_take_first_series_sizes() {
    let view = ViewState::auto_fit();
    let s = PlotSeries::new("a".to_string(), PlotPoints::owned(pts(&[(0, 0)])))
        .with_style(SeriesStyle::new(ColorMode::solid(Color::white())).with_marker_size(6000).with_line_width(3000));
    let plotter = Plotter::new(vec![s], &view);
    let prim = PlotterPrimitive::new(&plotter, frame(), [0, 1000], [0, 1000], None);
    assert_eq!((prim.uniforms.marker_radius, prim.uniforms.line_width), (6000, 3000));
    let empty = Plotter::new(vec![], &view);
    let prim = PlotterPrimitive::new(&empty, frame(), [0, 1000], [0, 1000], None);
    assert_eq!((prim.uniforms.marker_radius, prim.uniforms.line_width), (4000, 2000));
}

#[test]
fn legend_and_tooltip_defaults() {
    let o = PlotterOptions::default();
    assert!(o.legend.is_none() && o.tooltip.is_none());
    let l = LegendConfig::default();
    assert_eq!(l.position, LegendPosition::TopRight);
    assert_eq!((l.text_size, l.toggle_size, l.show_value), (12000, 12000, true));
    let t = TooltipConfig::default();
    assert_eq!((t.max_distance, t.highlight_radius), (10000, 8000));
}

use iced_plotter::interaction::{
    is_steady, selection_rect, InputEvent, InteractionMode, MouseInteraction, PlotterState,
    ScrollDelta,
};
use iced_plotter::plotter::{
    InteractionConfig, PlotPoint, PlotPoints, PlotSeries, Plotter, ViewState,
};
use iced_plotter::transform::{
    apply_elastic_resistance, clamp_range_to_bounds, data_to_screen, is_out_of_bounds, lerp_range,
    screen_to_data, Point, Rectangle,
};

fn series_0_to_10() -> Vec<PlotSeries<'static>> {
    let pts = (0..=10).map(|i| PlotPoint { x: i * 1000, y: (i % 3) * 1000 }).collect();
    vec![PlotSeries::new("s".to_string(), PlotPoints::owned(pts))]
}

fn frame() -> Rectangle {
    Rectangle { x: 0, y: 0, width: 500, height: 400 }
}

#[test]
fn clamp_shifts_into_padded_bounds() {
    // bounds (0, 10), 5% padding: padded (-0.5, 10.5)
    assert_eq!(clamp_range_to_bounds((-3000, 2000), Some((0, 10_000)), 50), (-500, 4500));
    assert_eq!(clamp_range_to_bounds((9000, 12_000), Some((0, 10_000)), 50), (7500, 10_500));
    assert_eq!(clamp_range_to_bounds((1000, 2000), Some((0, 10_000)), 50), (1000, 2000));
    // Wider than the padded bounds: replaced by them.
    assert_eq!(clamp_range_to_bounds((-5000, 15_000), Some((0, 10_000)), 50), (-500, 10_500));
    // No bounds: unchanged.
    assert_eq!(clamp_range_to_bounds((-5000, 15_000), None, 50), (-5000, 15_000));
}

#[test]
fn clamp_result_is_contained() {
    for lo in (-20_000..20_000).step_by(3_333) {
        for span in [0, 500, 5_000, 11_000] {
            let (a, b) = clamp_range_to_bounds((lo, lo + span), Some((0, 10_000)), 50);
            assert!(-500 <= a && a <= b && b <= 10_500);
            assert_eq!(b - a, span);
        }
    }
}

#[test]
fn out_of_bounds_detection() {
    assert!(is_out_of_bounds((-600, 1000), Some((0, 10_000)), 50));
    assert!(!is_out_of_bounds((-500, 10_500), Some((0, 10_000)), 50));
    assert!(!is_out_of_bounds((-99_999, 99_999), None, 50));
}

#[test]
fn elastic_resistance_damps_overscroll() {
    // span 1000, limit 0.3: overscroll stays under 300.
    let (lo, hi) = apply_elastic_resistance((-5500, -4500), Some((0, 10_000)), 50, 300);
    assert_eq!(hi - lo, 1000);
    assert!(lo < -500 && lo > -800);
    // over = 5000, m = 300: damped = 300 * 5000 / 5300 = 283
    assert_eq!(lo, -500 - 283);
    // Inside: unchanged.
    assert_eq!(apply_elastic_resistance((100, 900), Some((0, 10_000)), 50, 300), (100, 900));
}

#[test]
fn ease_out_cubic_interpolation() {
    let from = (-5000, 15_000);
    let to = (-500, 10_500);
    assert_eq!(lerp_range(from, to, 0, 200), from);
    assert_eq!(lerp_range(from, to, 100, 200), (-1062, 11_062));
    assert_eq!(lerp_range(from, to, 200, 200), to);
    assert_eq!(lerp_range(from, to, 500, 200), to);
}

#[test]
fn screen_data_round_trip() {
    let b = Rectangle { x: 20, y: 30, width: 500, height: 400 };
    for sx in [70, 71, 200, 333, 469, 470] {
        for sy in [80, 81, 250, 379, 380] {
            let (x, y) = screen_to_data(Point::new(sx, sy), b, [0, 10_000], [-2500, 2500], 50);
            let (lx, ly) = data_to_screen(x, y, [0, 10_000], [-2500, 2500], (500, 400), 50);
            assert_eq!((lx + b.x, ly + b.y), (sx, sy));
        }
    }
}

#[test]
fn screen_to_data_values() {
    let (x, y) = screen_to_data(Point::new(100, 100), frame(), [0, 10_000], [0, 5000], 50);
    assert_eq!((x, y), (1250, 4167));
    let (sx, sy) = data_to_screen(5000, 2500, [0, 10_000], [0, 5000], (500, 400), 50);
    assert_eq!((sx, sy), (250, 200));
}

#[test]
fn elastic_spring_back_scenario() {
    let mut cfg = InteractionConfig::default();
    cfg.x_bounds = Some((0, 10_000));
    cfg.boundary_padding = 50;
    cfg.elastic_duration_ms = 200;
    let view = ViewState::with_ranges((-5000, 15_000), (0, 2000));
    let plotter = Plotter::new(series_0_to_10(), &view).with_interaction(cfg);
    let mut state = PlotterState::default();
    state.interaction_mode = InteractionMode::Panning;
    state.drag_start = Some(Point::new(250, 200));
    state.drag_start_view = Some(view);

    let a = plotter.update(&mut state, &InputEvent::ButtonReleased, frame(), None, 1000).unwrap();
    assert!(a.capture && a.redraw && a.publish.is_none());
    assert_eq!(state.interaction_mode, InteractionMode::Idle);
    let anim = state.elastic_animation.unwrap();
    assert_eq!(anim.from_x, Some((-5000, 15_000)));
    assert_eq!(anim.to_x, Some((-500, 10_500)));
    assert_eq!(anim.from_y, None);
    assert_eq!(anim.start_time_ms, 1000);
    assert_eq!(anim.duration_ms, 200);

    // Half way in time: 87.5% of the way in value.
    let a = plotter.update(&mut state, &InputEvent::Other, frame(), None, 1100).unwrap();
    assert!(a.redraw);
    let v = a.publish.unwrap();
    assert_eq!(v.x_range, Some((-1062, 11_062)));
    assert_eq!(v.y_range, Some((0, 2000)));
    assert!(state.elastic_animation.is_some());

    // At the end: exactly the target, and the animation is over.
    let a = plotter.update(&mut state, &InputEvent::Other, frame(), None, 1200).unwrap();
    assert_eq!(a.publish.unwrap().x_range, Some((-500, 10_500)));
    assert!(state.elastic_animation.is_none());
}

#[test]
fn zoom_select_scenario() {
    let mut cfg = InteractionConfig::full();
    cfg.elastic = false;
    let view = ViewState::with_ranges((0, 10_000), (0, 5000));
    let plotter = Plotter::new(series_0_to_10(), &view).with_interaction(cfg);
    let mut state = PlotterState::default();

    assert!(plotter
        .update(&mut state, &InputEvent::ModifiersChanged { ctrl: true }, frame(), None, 0)
        .is_none());
    let a = plotter
        .update(&mut state, &InputEvent::ButtonPressed, frame(), Some(Point::new(100, 100)), 10)
        .unwrap();
    assert!(a.capture);
    assert_eq!(state.interaction_mode, InteractionMode::ZoomSelecting);
    let a = plotter
        .update(
            &mut state,
            &InputEvent::CursorMoved { position: Point::new(300, 250) },
            frame(),
            Some(Point::new(300, 250)),
            20,
        )
        .unwrap();
    assert!(a.redraw && a.capture);
    assert_eq!(selection_rect(&state), Some((Point::new(100, 100), Point::new(300, 250))));
    let a = plotter.update(&mut state, &InputEvent::ButtonReleased, frame(), None, 30).unwrap();
    let v = a.publish.unwrap();
    let (x0, y0) = screen_to_data(Point::new(100, 100), frame(), [0, 10_000], [0, 5000], 50);
    let (x1, y1) = screen_to_data(Point::new(300, 250), frame(), [0, 10_000], [0, 5000], 50);
    assert_eq!(v.x_range, Some((x0.min(x1), x0.max(x1))));
    assert_eq!(v.y_range, Some((y0.min(y1), y0.max(y1))));
    assert_eq!(v.x_range, Some((1250, 6250)));
    assert_eq!(v.y_range, Some((1667, 4167)));
    assert!(is_steady(&state));
}

#[test]
fn small_selection_is_ignored() {
    let mut cfg = InteractionConfig::full();
    cfg.elastic = false;
    let view = ViewState::with_ranges((0, 10_000), (0, 5000));
    let plotter = Plotter::new(series_0_to_10(), &view).with_interaction(cfg);
    let mut state = PlotterState::default();
    state.ctrl_held = true;
    plotter.update(&mut state, &InputEvent::ButtonPressed, frame(), Some(Point::new(100, 100)), 0);
    plotter.update(
        &mut state,
        &InputEvent::CursorMoved { position: Point::new(103, 104) },
        frame(),
        None,
        1,
    );
    let a = plotter.update(&mut state, &InputEvent::ButtonReleased, frame(), None, 2).unwrap();
    assert!(a.capture && a.publish.is_none());
    assert_eq!(state.interaction_mode, InteractionMode::Idle);
}

fn pan(plotter_view: ViewState, dx: i64, cfg: InteractionConfig, now: u64) -> ViewState {
    let plotter = Plotter::new(series_0_to_10(), &plotter_view).with_interaction(cfg);
    let mut state = PlotterState::default();
    plotter.update(&mut state, &InputEvent::ButtonPressed, frame(), Some(Point::new(250, 200)), now);
    let a = plotter
        .update(
            &mut state,
            &InputEvent::CursorMoved { position: Point::new(250 + dx, 200) },
            frame(),
            None,
            now + 1,
        )
        .unwrap();
    a.publish.unwrap()
}

#[test]
fn pan_round_trip_without_bounds() {
    let mut cfg = InteractionConfig::default();
    cfg.elastic = false;
    cfg.double_click_to_fit = false;
    let start = ViewState::with_ranges((1234, 8765), (0, 2000));
    let mut v = start;
    for (i, d) in [37, 123, 1, 399].iter().enumerate() {
        v = pan(v, *d, cfg, 1000 * i as u64);
        assert_ne!(v.x_range, start.x_range);
        v = pan(v, -*d, cfg, 1000 * i as u64 + 500);
        assert_eq!(v.x_range, start.x_range);
    }
}

#[test]
fn pan_moves_view_against_cursor() {
    let mut cfg = InteractionConfig::default();
    cfg.elastic = false;
    let v = pan(ViewState::with_ranges((0, 10_000), (0, 2000)), 40, cfg, 0);
    // 40 px of a 400 px plot over a 10-unit span: one unit to the left.
    assert_eq!(v.x_range, Some((-1000, 9000)));
    // Y is not pannable by default: left as it was.
    assert_eq!(v.y_range, Some((0, 2000)));
}

#[test]
fn double_click_resets_to_auto_fit() {
    let view = ViewState::with_ranges((0, 5000), (0, 2000));
    let plotter = Plotter::new(series_0_to_10(), &view);
    let mut state = PlotterState::default();
    let p = Some(Point::new(200, 200));
    plotter.update(&mut state, &InputEvent::ButtonPressed, frame(), p, 1000);
    plotter.update(&mut state, &InputEvent::ButtonReleased, frame(), p, 1050);
    let a = plotter.update(&mut state, &InputEvent::ButtonPressed, frame(), p, 1200).unwrap();
    let v = a.publish.unwrap();
    assert!(a.capture);
    assert_eq!(v.x_range, None);
    // Y is neither pannable nor zoomable by default: kept.
    assert_eq!(v.y_range, Some((0, 2000)));
    assert_eq!(state.last_click_time_ms, None);
}

#[test]
fn slow_second_click_is_not_a_double_click() {
    let view = ViewState::with_ranges((0, 5000), (0, 2000));
    let plotter = Plotter::new(series_0_to_10(), &view);
    let mut state = PlotterState::default();
    let p = Some(Point::new(200, 200));
    plotter.update(&mut state, &InputEvent::ButtonPressed, frame(), p, 1000);
    plotter.update(&mut state, &InputEvent::ButtonReleased, frame(), p, 1050);
    let a = plotter.update(&mut state, &InputEvent::ButtonPressed, frame(), p, 1300).unwrap();
    assert!(a.publish.is_none());
    assert_eq!(state.interaction_mode, InteractionMode::Panning);
    assert_eq!(state.last_click_time_ms, Some(1300));
}

#[test]
fn wheel_zoom_keeps_point_under_cursor() {
    let mut cfg = InteractionConfig::default();
    cfg.elastic = false;
    let view = ViewState::with_ranges((0, 10_000), (0, 2000));
    let plotter = Plotter::new(series_0_to_10(), &view).with_interaction(cfg);
    let mut state = PlotterState::default();
    // Cursor at the middle of the plot: data x = 5000.
    let a = plotter
        .update(
            &mut state,
            &InputEvent::WheelScrolled { delta: ScrollDelta::Lines { y: 1000 } },
            frame(),
            Some(Point::new(250, 200)),
            0,
        )
        .unwrap();
    // factor 0.9 about 5000
    assert_eq!(a.publish.unwrap().x_range, Some((500, 9500)));
    assert!(a.capture);
    // Zero scroll is ignored.
    assert!(plotter
        .update(
            &mut state,
            &InputEvent::WheelScrolled { delta: ScrollDelta::Pixels { y: 10 } },
            frame(),
            Some(Point::new(250, 200)),
            0,
        )
        .is_none());
}

#[test]
fn nothing_enabled_ignores_events() {
    let view = ViewState::auto_fit();
    let plotter = Plotter::new(series_0_to_10(), &view).with_interaction(InteractionConfig::none());
    let mut state = PlotterState::default();
    assert!(plotter
        .update(&mut state, &InputEvent::ButtonPressed, frame(), Some(Point::new(200, 200)), 0)
        .is_none());
    assert_eq!(state.interaction_mode, InteractionMode::Idle);
}

#[test]
fn pan_back_and_forth_within_one_drag() {
    let mut cfg = InteractionConfig::default();
    cfg.elastic = false;
    cfg.double_click_to_fit = false;
    let view = ViewState::with_ranges((1234, 8765), (0, 2000));
    let plotter = Plotter::new(series_0_to_10(), &view).with_interaction(cfg);
    let mut state = PlotterState::default();
    plotter.update(&mut state, &InputEvent::ButtonPressed, frame(), Some(Point::new(250, 200)), 0);
    for (i, d) in [37, -123, 1, 399, -5].iter().enumerate() {
        let away = InputEvent::CursorMoved { position: Point::new(250 + d, 200) };
        let v = plotter.update(&mut state, &away, frame(), None, 10 * i as u64 + 1).unwrap().publish.unwrap();
        assert_ne!(v.x_range, Some((1234, 8765)));
        let back = InputEvent::CursorMoved { position: Point::new(250, 200) };
        let v = plotter.update(&mut state, &back, frame(), None, 10 * i as u64 + 2).unwrap().publish.unwrap();
        assert_eq!(v.x_range, Some((1234, 8765)));
    }
}

#[test]
fn fast_zoom_speed_is_accepted() {
    let mut cfg = InteractionConfig::default();
    cfg.elastic = false;
    cfg.zoom_speed = 50_000;
    let view = ViewState::with_ranges((0, 10_000), (0, 2000));
    let plotter = Plotter::new(series_0_to_10(), &view).with_interaction(cfg);
    let mut state = PlotterState::default();
    // 10 pixels = 0.2 lines; factor 1 - 0.2 * 50 is clamped to 0.1.
    let a = plotter
        .update(
            &mut state,
            &InputEvent::WheelScrolled { delta: ScrollDelta::Pixels { y: 10_000 } },
            frame(),
            Some(Point::new(250, 200)),
            0,
        )
        .unwrap();
    assert_eq!(a.publish.unwrap().x_range, Some((4500, 5500)));
}

#[test]
fn release_without_plot_area_ends_the_pan() {
    let view = ViewState::with_ranges((0, 5000), (0, 2000));
    let plotter = Plotter::new(series_0_to_10(), &view);
    let mut state = PlotterState::default();
    plotter.update(&mut state, &InputEvent::ButtonPressed, frame(), Some(Point::new(200, 200)), 0);
    assert_eq!(state.interaction_mode, InteractionMode::Panning);
    let tiny = Rectangle { x: 0, y: 0, width: 60, height: 60 };
    let a = plotter.update(&mut state, &InputEvent::ButtonReleased, tiny, None, 5).unwrap();
    assert!(a.capture);
    assert_eq!(state.interaction_mode, InteractionMode::Idle);
    // A press still starts a pan; moves need a plot area and are ignored.
    let a = plotter
        .update(&mut state, &InputEvent::ButtonPressed, tiny, Some(Point::new(30, 30)), 1000)
        .unwrap();
    assert!(a.capture);
    assert_eq!(state.interaction_mode, InteractionMode::Panning);
    let mv = InputEvent::CursorMoved { position: Point::new(40, 30) };
    assert!(plotter.update(&mut state, &mv, tiny, None, 1001).is_none());
}

#[test]
fn double_click_fits_on_a_widget_without_plot_area() {
    let view = ViewState::with_ranges((0, 5000), (0, 2000));
    let plotter = Plotter::new(series_0_to_10(), &view);
    let mut state = PlotterState::default();
    let tiny = Rectangle { x: 0, y: 0, width: 100, height: 100 };
    let p = Some(Point::new(50, 50));
    plotter.update(&mut state, &InputEvent::ButtonPressed, tiny, p, 1000);
    plotter.update(&mut state, &InputEvent::ButtonReleased, tiny, p, 1050);
    let a = plotter.update(&mut state, &InputEvent::ButtonPressed, tiny, p, 1200).unwrap();
    let v = a.publish.unwrap();
    assert!(a.capture);
    assert_eq!(v.x_range, None);
    assert_eq!(v.y_range, Some((0, 2000)));
    assert_eq!(state.interaction_mode, InteractionMode::Idle);
    assert_eq!(state.last_click_time_ms, None);
}

#[test]
fn descending_view_round_trip() {
    let b = Rectangle { x: 20, y: 30, width: 500, height: 400 };
    for sx in [70, 71, 200, 333, 469, 470] {
        for sy in [80, 81, 250, 379, 380] {
            let (x, y) = screen_to_data(Point::new(sx, sy), b, [10_000, 0], [2500, -2500], 50);
            let (lx, ly) = data_to_screen(x, y, [10_000, 0], [2500, -2500], (500, 400), 50);
            assert_eq!((lx + b.x, ly + b.y), (sx, sy));
        }
    }
    // The left edge of the plot shows the view's first end.
    assert_eq!(screen_to_data(Point::new(70, 80), b, [10_000, 0], [0, 5000], 50), (10_000, 5000));
}

#[test]
fn pointer_follows_mode() {
    let view = ViewState::auto_fit();
    let plotter = Plotter::new(series_0_to_10(), &view);
    let mut state = PlotterState::default();
    let inside = Some(Point::new(100, 100));
    assert_eq!(plotter.mouse_interaction(&state, frame(), inside), MouseInteraction::Grab);
    assert_eq!(plotter.mouse_interaction(&state, frame(), Some(Point::new(900, 0))), MouseInteraction::Arrow);
    state.ctrl_held = true;
    assert_eq!(plotter.mouse_interaction(&state, frame(), inside), MouseInteraction::Crosshair);
    state.interaction_mode = InteractionMode::Panning;
    assert_eq!(plotter.mouse_interaction(&state, frame(), None), MouseInteraction::Grabbing);
    let none = Plotter::new(series_0_to_10(), &view).with_interaction(InteractionConfig::none());
    assert_eq!(none.mouse_interaction(&state, frame(), inside), MouseInteraction::Arrow);
}

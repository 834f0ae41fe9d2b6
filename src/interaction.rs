//! The interaction state machine: input events and the current state give
//! the next state and an action (a view to publish, capture, redraw).
use vstd::prelude::*;

use crate::plotter::{InteractionConfig, Plotter, ViewState};
use crate::transform::{
    apply_elastic_resistance, bounds_ok, clamp_range_to_bounds, clamp_spec, elastic_spec,
    floor_div, frame_ok, frame_ok_exec, is_out_of_bounds, lerp_range, lerp_range_spec, out_of_bounds_spec, saturate,
    saturated, screen_to_data, screen_to_data_spec, Point, Rectangle,
};
use crate::{in_domain, COORD_MAX, PER_MILLE};

verus! {

/// Two presses closer than this, in milliseconds, make a double click.
pub const DOUBLE_CLICK_MS: u64 = 300;

/// A selection must be wider (or taller) than this, in pixels, to zoom.
pub const ZOOM_SELECT_MIN_PX: i64 = 5;

/// Pixels of scrolling that count as one line.
pub const PIXELS_PER_LINE: i64 = 50;

/// Bounds on the zoom factor of one wheel event, in thousandths.
pub const ZOOM_FACTOR_MIN: i64 = 100;
pub const ZOOM_FACTOR_MAX: i64 = 10_000;

/// What the pointer is doing.
#[derive(Clone, Copy, Debug, PartialEq, Eq, Structural)]
pub enum InteractionMode {
    Idle,
    Panning,
    /// Ctrl + drag rectangle selection.
    ZoomSelecting,
}

impl Default for InteractionMode {
    fn default() -> (m: Self)
        ensures
            m == InteractionMode::Idle,
    {
        InteractionMode::Idle
    }
}

/// A spring-back animation from an over-scrolled range to its clamped target.
#[derive(Clone, Copy, Debug)]
pub struct ElasticState {
    pub from_x: Option<(i64, i64)>,
    pub from_y: Option<(i64, i64)>,
    pub to_x: Option<(i64, i64)>,
    pub to_y: Option<(i64, i64)>,
    pub start_time_ms: u64,
    pub duration_ms: u64,
}

/// Session state of the pointer interaction, kept across events.
#[derive(Clone, Copy, Debug)]
pub struct PlotterState {
    pub interaction_mode: InteractionMode,
    /// Where the drag started, relative to the widget.
    pub drag_start: Option<Point>,
    /// The resolved view when the drag started.
    pub drag_start_view: Option<ViewState>,
    /// Last cursor position, absolute.
    pub last_cursor: Option<Point>,
    pub last_click_time_ms: Option<u64>,
    pub ctrl_held: bool,
    /// Current corner of the selection, relative to the widget.
    pub zoom_select_current: Option<Point>,
    pub elastic_animation: Option<ElasticState>,
}

impl Default for PlotterState {
    fn default() -> (s: Self)
        ensures
            s == PlotterState::initial(),
    {
        PlotterState {
            interaction_mode: InteractionMode::Idle,
            drag_start: None,
            drag_start_view: None,
            last_cursor: None,
            last_click_time_ms: None,
            ctrl_held: false,
            zoom_select_current: None,
            elastic_animation: None,
        }
    }
}

impl PlotterState {
    pub open spec fn initial() -> PlotterState {
        PlotterState {
            interaction_mode: InteractionMode::Idle,
            drag_start: None,
            drag_start_view: None,
            last_cursor: None,
            last_click_time_ms: None,
            ctrl_held: false,
            zoom_select_current: None,
            elastic_animation: None,
        }
    }

    /// Stored points and ranges lie inside the domain.
    pub open spec fn wf(&self) -> bool {
        &&& (self.interaction_mode == InteractionMode::Panning ==> self.drag_start is Some
            && self.drag_start_view is Some && self.drag_start_view->0.x_range is Some
            && self.drag_start_view->0.y_range is Some)
        &&& (self.drag_start matches Some(p) ==> near_domain(p))
        &&& (self.drag_start_view matches Some(v) ==> v.wf())
        &&& (self.zoom_select_current matches Some(p) ==> near_domain(p))
        &&& (self.elastic_animation matches Some(a) ==> anim_wf(a))
    }
}

/// A point within twice the domain (a difference of two domain points).
pub open spec fn near_domain(p: Point) -> bool {
    -2 * COORD_MAX <= p.x <= 2 * COORD_MAX && -2 * COORD_MAX <= p.y <= 2 * COORD_MAX
}

pub open spec fn range_ok(r: Option<(i64, i64)>) -> bool {
    r matches Some(r) ==> in_domain(r.0 as int) && in_domain(r.1 as int)
}

pub open spec fn anim_wf(a: ElasticState) -> bool {
    range_ok(a.from_x) && range_ok(a.from_y) && range_ok(a.to_x) && range_ok(a.to_y)
}

/// Scroll amount, in thousandths of a line or of a pixel.
#[derive(Clone, Copy, Debug, PartialEq, Eq, Structural)]
pub enum ScrollDelta {
    Lines { y: i64 },
    Pixels { y: i64 },
}

/// The input events the plot reacts to. Button events are for the left button.
#[derive(Clone, Copy, Debug, PartialEq, Eq, Structural)]
pub enum InputEvent {
    ModifiersChanged { ctrl: bool },
    ButtonPressed,
    ButtonReleased,
    /// The cursor moved to an absolute position.
    CursorMoved { position: Point },
    WheelScrolled { delta: ScrollDelta },
    Other,
}

/// What the host should do after an event: publish a new view, treat the
/// event as consumed, and/or draw again.
#[derive(Clone, Copy, Debug)]
pub struct Action {
    pub publish: Option<ViewState>,
    pub capture: bool,
    pub redraw: bool,
}

pub open spec fn act(publish: Option<ViewState>, capture: bool, redraw: bool) -> Option<Action> {
    Some(Action { publish, capture, redraw })
}

/// Milliseconds from `earlier` to `now`, zero if the clock went back.
pub open spec fn since(now: u64, earlier: u64) -> int {
    if now >= earlier {
        now - earlier
    } else {
        0
    }
}

/// `n / d` rounded toward zero.
pub open spec fn trunc_div(n: int, d: int) -> int {
    if n >= 0 {
        n / d
    } else {
        -((-n) / d)
    }
}

pub open spec fn sat_pair(a: int, b: int) -> (i64, i64) {
    (saturated(a) as i64, saturated(b) as i64)
}

/// A cursor position relative to the widget, if it is over the widget.
pub open spec fn position_in(cursor: Option<Point>, bounds: Rectangle) -> Option<Point> {
    match cursor {
        Some(p) => if bounds.contains_spec(p) {
            Some(Point { x: (p.x - bounds.x) as i64, y: (p.y - bounds.y) as i64 })
        } else {
            None
        },
        None => None,
    }
}

/// A range during a drag: shifted by `delta`, then damped (elastic) or
/// clamped (hard) against the bounds.
pub open spec fn drag_axis(start: (i64, i64), delta: int, bounds: Option<(i64, i64)>, cfg: InteractionConfig) -> (i64, i64) {
    let raw = sat_pair(start.0 + delta, start.1 + delta);
    let r = if cfg.elastic {
        elastic_spec((raw.0 as int, raw.1 as int), bounds, cfg.boundary_padding as int, cfg.elastic_limit as int)
    } else {
        clamp_spec((raw.0 as int, raw.1 as int), bounds, cfg.boundary_padding as int)
    };
    sat_pair(r.0, r.1)
}

/// A range zoomed by `factor` thousandths about `c`, then clamped.
pub open spec fn zoom_axis(view: [i64; 2], c: int, factor: int, bounds: Option<(i64, i64)>, pad_pm: int) -> (i64, i64) {
    let lo = c - (c - view[0]) * factor / PER_MILLE as int;
    let hi = c + (view[1] - c) * factor / PER_MILLE as int;
    let r = sat_pair(lo, hi);
    let k = clamp_spec((r.0 as int, r.1 as int), bounds, pad_pm);
    sat_pair(k.0, k.1)
}

/// The scroll of a wheel event in thousandths of a line.
pub open spec fn scroll_lines(delta: ScrollDelta) -> int {
    match delta {
        ScrollDelta::Lines { y } => y as int,
        ScrollDelta::Pixels { y } => trunc_div(y as int, PIXELS_PER_LINE as int),
    }
}

/// The zoom factor of a scroll, in thousandths: shrink on a positive
/// scroll, bounded to [0.1, 10].
pub open spec fn zoom_factor(scroll: int, speed: int) -> int {
    let f = PER_MILLE - trunc_div(scroll * speed, PER_MILLE as int);
    if f < ZOOM_FACTOR_MIN {
        ZOOM_FACTOR_MIN as int
    } else if f > ZOOM_FACTOR_MAX {
        ZOOM_FACTOR_MAX as int
    } else {
        f
    }
}

/// A point relative to the widget made absolute again, kept in the domain.
pub open spec fn absolute(p: Point, bounds: Rectangle) -> Point {
    Point { x: saturated(p.x + bounds.x) as i64, y: saturated(p.y + bounds.y) as i64 }
}

pub open spec fn abs_diff(a: i64, b: i64) -> int {
    if a >= b {
        a - b
    } else {
        b - a
    }
}

pub open spec fn min_int(a: int, b: int) -> int {
    if a <= b {
        a
    } else {
        b
    }
}

pub open spec fn max_int(a: int, b: int) -> int {
    if a >= b {
        a
    } else {
        b
    }
}

pub open spec fn any_interaction(cfg: InteractionConfig) -> bool {
    cfg.pan_x || cfg.pan_y || cfg.zoom_x || cfg.zoom_y || cfg.double_click_to_fit || cfg.zoom_select
}

fn since_exec(now: u64, earlier: u64) -> (r: u64)
    ensures
        r == since(now, earlier),
{
    if now >= earlier {
        now - earlier
    } else {
        0
    }
}

fn trunc_div_exec(n: i128, d: i128) -> (q: i128)
    requires
        d > 0,
        -0x1_0000_0000_0000_0000_0000_0000 <= n <= 0x1_0000_0000_0000_0000_0000_0000,
    ensures
        q == trunc_div(n as int, d as int),
        -0x1_0000_0000_0000_0000_0000_0000 <= q <= 0x1_0000_0000_0000_0000_0000_0000,
{
    if n >= 0 {
        let q = (n as u128) / (d as u128);
        assert(q <= n) by (nonlinear_arith)
            requires
                q == n / d,
                n >= 0,
                d >= 1,
        ;
        q as i128
    } else {
        let q = ((-n) as u128) / (d as u128);
        assert(q <= -n) by (nonlinear_arith)
            requires
                q == (-n) / (d as int),
                -n >= 0,
                d >= 1,
        ;
        -(q as i128)
    }
}

fn position_in_exec(cursor: Option<Point>, bounds: Rectangle) -> (r: Option<Point>)
    requires
        cursor matches Some(p) ==> in_domain(p.x as int) && in_domain(p.y as int),
        in_domain(bounds.x as int) && in_domain(bounds.y as int),
        in_domain(bounds.width as int) && in_domain(bounds.height as int),
    ensures
        r == position_in(cursor, bounds),
        r matches Some(p) ==> 0 <= p.x <= COORD_MAX && 0 <= p.y <= COORD_MAX,
{
    match cursor {
        Some(p) => if bounds.contains(p) {
            Some(Point { x: p.x - bounds.x, y: p.y - bounds.y })
        } else {
            None
        },
        None => None,
    }
}

fn sat_pair_exec(a: i128, b: i128) -> (r: (i64, i64))
    ensures
        r == sat_pair(a as int, b as int),
        in_domain(r.0 as int) && in_domain(r.1 as int),
{
    (saturate(a), saturate(b))
}

fn drag_axis_exec(start: (i64, i64), delta: i128, bounds: Option<(i64, i64)>, cfg: &InteractionConfig) -> (r: (i64, i64))
    requires
        in_domain(start.0 as int) && in_domain(start.1 as int),
        -0x1_0000_0000_0000_0000_0000_0000 <= delta <= 0x1_0000_0000_0000_0000_0000_0000,
        bounds_ok(bounds),
        cfg.wf(),
    ensures
        r == drag_axis(start, delta as int, bounds, *cfg),
        in_domain(r.0 as int) && in_domain(r.1 as int),
{
    let raw = sat_pair_exec(start.0 as i128 + delta, start.1 as i128 + delta);
    let m = if cfg.elastic {
        apply_elastic_resistance(raw, bounds, cfg.boundary_padding, cfg.elastic_limit)
    } else {
        clamp_range_to_bounds(raw, bounds, cfg.boundary_padding)
    };
    sat_pair_exec(m.0 as i128, m.1 as i128)
}

fn zoom_axis_exec(view: [i64; 2], c: i64, factor: i64, bounds: Option<(i64, i64)>, pad_pm: u32) -> (r: (i64, i64))
    requires
        in_domain(view[0] as int) && in_domain(view[1] as int) && in_domain(c as int),
        ZOOM_FACTOR_MIN <= factor <= ZOOM_FACTOR_MAX,
        bounds_ok(bounds),
        pad_pm <= PER_MILLE,
    ensures
        r == zoom_axis(view, c as int, factor as int, bounds, pad_pm as int),
        in_domain(r.0 as int) && in_domain(r.1 as int),
{
    let da = c as i128 - view[0] as i128;
    let db = view[1] as i128 - c as i128;
    assert(-2 * COORD_MAX * ZOOM_FACTOR_MAX <= da * factor <= 2 * COORD_MAX * ZOOM_FACTOR_MAX) by (nonlinear_arith)
        requires
            -2 * COORD_MAX <= da <= 2 * COORD_MAX,
            0 <= factor <= ZOOM_FACTOR_MAX,
    ;
    assert(-2 * COORD_MAX * ZOOM_FACTOR_MAX <= db * factor <= 2 * COORD_MAX * ZOOM_FACTOR_MAX) by (nonlinear_arith)
        requires
            -2 * COORD_MAX <= db <= 2 * COORD_MAX,
            0 <= factor <= ZOOM_FACTOR_MAX,
    ;
    let a = da * factor as i128;
    let b = db * factor as i128;
    assert(-2 * COORD_MAX * ZOOM_FACTOR_MAX <= a <= 2 * COORD_MAX * ZOOM_FACTOR_MAX) by (nonlinear_arith)
        requires
            a == (c - view[0]) * factor,
            -2 * COORD_MAX <= c - view[0] <= 2 * COORD_MAX,
            0 <= factor <= ZOOM_FACTOR_MAX,
    ;
    assert(-2 * COORD_MAX * ZOOM_FACTOR_MAX <= b <= 2 * COORD_MAX * ZOOM_FACTOR_MAX) by (nonlinear_arith)
        requires
            b == (view[1] - c) * factor,
            -2 * COORD_MAX <= view[1] - c <= 2 * COORD_MAX,
            0 <= factor <= ZOOM_FACTOR_MAX,
    ;
    let lo = c as i128 - floor_div(a, PER_MILLE as i128);
    let hi = c as i128 + floor_div(b, PER_MILLE as i128);
    let r = sat_pair_exec(lo, hi);
    let k = clamp_range_to_bounds(r, bounds, pad_pm);
    sat_pair_exec(k.0 as i128, k.1 as i128)
}

fn scroll_lines_exec(delta: ScrollDelta) -> (r: i64)
    ensures
        r == scroll_lines(delta),
{
    match delta {
        ScrollDelta::Lines { y } => y,
        ScrollDelta::Pixels { y } => trunc_div_exec(y as i128, PIXELS_PER_LINE as i128) as i64,
    }
}

fn zoom_factor_exec(scroll: i64, speed: u32) -> (f: i64)
    ensures
        f == zoom_factor(scroll as int, speed as int),
        ZOOM_FACTOR_MIN <= f <= ZOOM_FACTOR_MAX,
{
    assert(-0x8000_0000_0000_0000 * 0x1_0000_0000 <= (scroll as i128) * (speed as i128) <= 0x8000_0000_0000_0000
        * 0x1_0000_0000) by (nonlinear_arith)
        requires
            -0x8000_0000_0000_0000 <= scroll < 0x8000_0000_0000_0000,
            0 <= speed < 0x1_0000_0000,
    ;
    let f = PER_MILLE as i128 - trunc_div_exec((scroll as i128) * (speed as i128), PER_MILLE as i128);
    if f < ZOOM_FACTOR_MIN as i128 {
        ZOOM_FACTOR_MIN
    } else if f > ZOOM_FACTOR_MAX as i128 {
        ZOOM_FACTOR_MAX
    } else {
        f as i64
    }
}

impl<'a> Plotter<'a> {
    /// One step of the spring-back animation: the eased view while it runs,
    /// the target (and the end of the animation) once its time is up.
    pub open spec fn tick_spec(&self, s: PlotterState, a: ElasticState, now: u64) -> (PlotterState, Option<Action>) {
        let view = self.view_state;
        let elapsed = since(now, a.start_time_ms);
        if elapsed >= a.duration_ms {
            let v = ViewState {
                x_range: if a.from_x.is_some() && a.to_x.is_some() {
                    a.to_x
                } else {
                    view.x_range
                },
                y_range: if a.from_y.is_some() && a.to_y.is_some() {
                    a.to_y
                } else {
                    view.y_range
                },
            };
            (PlotterState { elastic_animation: None, ..s }, act(Some(v), false, false))
        } else {
            let v = ViewState {
                x_range: match (a.from_x, a.to_x) {
                    (Some(f), Some(t)) => {
                        let r = lerp_range_spec(f, t, elapsed, a.duration_ms as int);
                        Some((r.0 as i64, r.1 as i64))
                    },
                    _ => view.x_range,
                },
                y_range: match (a.from_y, a.to_y) {
                    (Some(f), Some(t)) => {
                        let r = lerp_range_spec(f, t, elapsed, a.duration_ms as int);
                        Some((r.0 as i64, r.1 as i64))
                    },
                    _ => view.y_range,
                },
            };
            (s, act(Some(v), false, true))
        }
    }

    /// The view after a double click: the interactive axes fit the data again.
    pub open spec fn fit_view(&self) -> ViewState {
        let cfg = self.interaction;
        ViewState {
            x_range: if cfg.pan_x || cfg.zoom_x {
                None
            } else {
                self.view_state.x_range
            },
            y_range: if cfg.pan_y || cfg.zoom_y {
                None
            } else {
                self.view_state.y_range
            },
        }
    }

    /// Left button pressed at `pos` (relative to the widget), if over it.
    pub open spec fn press_spec(
        &self,
        s: PlotterState,
        pos: Option<Point>,
        now: u64,
        vx: [i64; 2],
        vy: [i64; 2],
    ) -> (PlotterState, Option<Action>) {
        let cfg = self.interaction;
        match pos {
            None => (s, None),
            Some(pos) => {
                if cfg.double_click_to_fit && s.last_click_time_ms is Some && since(
                    now,
                    s.last_click_time_ms->0,
                ) < DOUBLE_CLICK_MS {
                    (
                        PlotterState {
                            last_click_time_ms: None,
                            interaction_mode: InteractionMode::Idle,
                            elastic_animation: None,
                            ..s
                        },
                        act(Some(self.fit_view()), true, false),
                    )
                } else {
                    let s1 = if cfg.double_click_to_fit {
                        PlotterState { last_click_time_ms: Some(now), ..s }
                    } else {
                        s
                    };
                    if cfg.zoom_select && s.ctrl_held {
                        (
                            PlotterState {
                                interaction_mode: InteractionMode::ZoomSelecting,
                                drag_start: Some(pos),
                                zoom_select_current: Some(pos),
                                ..s1
                            },
                            act(None, true, false),
                        )
                    } else if cfg.pan_x || cfg.pan_y {
                        (
                            PlotterState {
                                elastic_animation: None,
                                interaction_mode: InteractionMode::Panning,
                                drag_start: Some(pos),
                                drag_start_view: Some(
                                    ViewState { x_range: Some((vx[0], vx[1])), y_range: Some((vy[0], vy[1])) },
                                ),
                                ..s1
                            },
                            act(None, true, false),
                        )
                    } else {
                        (s1, None)
                    }
                }
            },
        }
    }

    /// The spring-back animation started when a pan ends out of bounds.
    pub open spec fn spring_back(&self, cx: (i64, i64), cy: (i64, i64), x_out: bool, y_out: bool, now: u64) -> ElasticState {
        let cfg = self.interaction;
        let tx = clamp_spec((cx.0 as int, cx.1 as int), cfg.x_bounds, cfg.boundary_padding as int);
        let ty = clamp_spec((cy.0 as int, cy.1 as int), cfg.y_bounds, cfg.boundary_padding as int);
        ElasticState {
            from_x: if x_out {
                Some(cx)
            } else {
                None
            },
            from_y: if y_out {
                Some(cy)
            } else {
                None
            },
            to_x: if x_out {
                Some(sat_pair(tx.0, tx.1))
            } else {
                None
            },
            to_y: if y_out {
                Some(sat_pair(ty.0, ty.1))
            } else {
                None
            },
            start_time_ms: now,
            duration_ms: cfg.elastic_duration_ms,
        }
    }

    /// The view chosen by a selection rectangle between two corners
    /// (relative to the widget): each zoomable axis on which it spans more
    /// than the threshold takes the sorted data values of the corners.
    pub open spec fn selection_view(
        &self,
        st: Point,
        cur: Point,
        bounds: Rectangle,
        vx: [i64; 2],
        vy: [i64; 2],
    ) -> ViewState {
        let cfg = self.interaction;
        let corner_a = screen_to_data_spec(absolute(st, bounds), bounds, vx, vy, self.options.padding);
        let corner_b = screen_to_data_spec(absolute(cur, bounds), bounds, vx, vy, self.options.padding);
        let dx = abs_diff(cur.x, st.x);
        let dy = abs_diff(cur.y, st.y);
        ViewState {
            x_range: if cfg.zoom_x && dx > ZOOM_SELECT_MIN_PX {
                Some((min_int(corner_a.0, corner_b.0) as i64, max_int(corner_a.0, corner_b.0) as i64))
            } else {
                self.view_state.x_range
            },
            y_range: if cfg.zoom_y && dy > ZOOM_SELECT_MIN_PX {
                Some((min_int(corner_a.1, corner_b.1) as i64, max_int(corner_a.1, corner_b.1) as i64))
            } else {
                self.view_state.y_range
            },
        }
    }

    /// Left button released.
    pub open spec fn release_spec(
        &self,
        s: PlotterState,
        bounds: Rectangle,
        now: u64,
        vx: [i64; 2],
        vy: [i64; 2],
    ) -> (PlotterState, Option<Action>) {
        let cfg = self.interaction;
        match s.interaction_mode {
            InteractionMode::Panning => {
                let s1 = PlotterState {
                    interaction_mode: InteractionMode::Idle,
                    drag_start: None,
                    drag_start_view: None,
                    ..s
                };
                let cx = match self.view_state.x_range {
                    Some(r) => r,
                    None => (vx[0], vx[1]),
                };
                let cy = match self.view_state.y_range {
                    Some(r) => r,
                    None => (vy[0], vy[1]),
                };
                let x_out = cfg.pan_x && out_of_bounds_spec(
                    (cx.0 as int, cx.1 as int),
                    cfg.x_bounds,
                    cfg.boundary_padding as int,
                );
                let y_out = cfg.pan_y && out_of_bounds_spec(
                    (cy.0 as int, cy.1 as int),
                    cfg.y_bounds,
                    cfg.boundary_padding as int,
                );
                if cfg.elastic && (x_out || y_out) {
                    (
                        PlotterState { elastic_animation: Some(self.spring_back(cx, cy, x_out, y_out, now)), ..s1 },
                        act(None, true, true),
                    )
                } else {
                    (s1, act(None, true, false))
                }
            },
            InteractionMode::ZoomSelecting => {
                let s1 = PlotterState {
                    interaction_mode: InteractionMode::Idle,
                    drag_start: None,
                    zoom_select_current: None,
                    ..s
                };
                match (s.drag_start, s.zoom_select_current) {
                    (Some(st), Some(cur)) => {
                        if frame_ok(bounds, self.options.padding) && (abs_diff(cur.x, st.x) > ZOOM_SELECT_MIN_PX
                            || abs_diff(cur.y, st.y) > ZOOM_SELECT_MIN_PX) {
                            (s1, act(Some(self.selection_view(st, cur, bounds, vx, vy)), true, false))
                        } else {
                            (s1, act(None, true, false))
                        }
                    },
                    _ => (s1, act(None, true, false)),
                }
            },
            InteractionMode::Idle => (s, None),
        }
    }

    /// The cursor moved to `position` (absolute).
    pub open spec fn move_spec(&self, s: PlotterState, position: Point, bounds: Rectangle) -> (PlotterState, Option<Action>) {
        let cfg = self.interaction;
        let s0 = PlotterState { last_cursor: Some(position), ..s };
        let rel = Point { x: (position.x - bounds.x) as i64, y: (position.y - bounds.y) as i64 };
        match s.interaction_mode {
            InteractionMode::Panning => match (s.drag_start, s.drag_start_view) {
                (Some(st), Some(sv)) => match (sv.x_range, sv.y_range) {
                    (Some(rx), Some(ry)) => {
                        let w = bounds.width - 2 * self.options.padding;
                        let h = bounds.height - 2 * self.options.padding;
                        let ddx = trunc_div(-(rel.x - st.x) * (rx.1 - rx.0), w);
                        let ddy = trunc_div((rel.y - st.y) * (ry.1 - ry.0), h);
                        let v = ViewState {
                            x_range: if cfg.pan_x {
                                Some(drag_axis(rx, ddx, cfg.x_bounds, cfg))
                            } else {
                                self.view_state.x_range
                            },
                            y_range: if cfg.pan_y {
                                Some(drag_axis(ry, ddy, cfg.y_bounds, cfg))
                            } else {
                                self.view_state.y_range
                            },
                        };
                        (s0, act(Some(v), true, false))
                    },
                    _ => (s0, None),
                },
                _ => (s0, None),
            },
            InteractionMode::ZoomSelecting => (
                PlotterState { zoom_select_current: Some(rel), ..s0 },
                act(None, true, true),
            ),
            InteractionMode::Idle => (s0, None),
        }
    }

    /// The wheel turned with the cursor at `cursor` (absolute).
    pub open spec fn wheel_spec(
        &self,
        s: PlotterState,
        delta: ScrollDelta,
        cursor: Option<Point>,
        bounds: Rectangle,
        vx: [i64; 2],
        vy: [i64; 2],
    ) -> (PlotterState, Option<Action>) {
        let cfg = self.interaction;
        let scroll = scroll_lines(delta);
        if !cfg.zoom_x && !cfg.zoom_y {
            (s, None)
        } else if position_in(cursor, bounds) is None {
            (s, None)
        } else if scroll == 0 {
            (s, None)
        } else {
            let f = zoom_factor(scroll, cfg.zoom_speed as int);
            let c = screen_to_data_spec(cursor->0, bounds, vx, vy, self.options.padding);
            let v = ViewState {
                x_range: if cfg.zoom_x {
                    Some(zoom_axis(vx, c.0, f, cfg.x_bounds, cfg.boundary_padding as int))
                } else {
                    self.view_state.x_range
                },
                y_range: if cfg.zoom_y {
                    Some(zoom_axis(vy, c.1, f, cfg.y_bounds, cfg.boundary_padding as int))
                } else {
                    self.view_state.y_range
                },
            };
            (PlotterState { elastic_animation: None, ..s }, act(Some(v), true, false))
        }
    }

    /// The whole transition for one event, given the resolved view ranges.
    pub open spec fn transition(
        &self,
        s: PlotterState,
        event: InputEvent,
        bounds: Rectangle,
        cursor: Option<Point>,
        now: u64,
        vx: [i64; 2],
        vy: [i64; 2],
    ) -> (PlotterState, Option<Action>) {
        if !any_interaction(self.interaction) {
            (s, None)
        } else if s.elastic_animation is Some {
            self.tick_spec(s, s.elastic_animation->0, now)
        } else {
            match event {
                InputEvent::ModifiersChanged { ctrl } => (PlotterState { ctrl_held: ctrl, ..s }, None),
                InputEvent::ButtonReleased => self.release_spec(s, bounds, now, vx, vy),
                InputEvent::ButtonPressed => self.press_spec(s, position_in(cursor, bounds), now, vx, vy),
                _ => if !frame_ok(bounds, self.options.padding) {
                    (s, None)
                } else {
                    match event {
                        InputEvent::CursorMoved { position } => self.move_spec(s, position, bounds),
                        InputEvent::WheelScrolled { delta } => self.wheel_spec(s, delta, cursor, bounds, vx, vy),
                        _ => (s, None),
                    }
                },
            }
        }
    }

    fn tick(&self, s: PlotterState, a: ElasticState, now: u64) -> (r: (PlotterState, Option<Action>))
        requires
            self.wf(),
            anim_wf(a),
        ensures
            r == self.tick_spec(s, a, now),
            r.1 matches Some(a) ==> (a.publish matches Some(v) ==> v.wf()),
    {
        let view = self.view_state;
        let elapsed = since_exec(now, a.start_time_ms);
        if elapsed >= a.duration_ms {
            let v = ViewState {
                x_range: if a.from_x.is_some() && a.to_x.is_some() {
                    a.to_x
                } else {
                    view.x_range
                },
                y_range: if a.from_y.is_some() && a.to_y.is_some() {
                    a.to_y
                } else {
                    view.y_range
                },
            };
            (PlotterState { elastic_animation: None, ..s }, Some(Action { publish: Some(v), capture: false, redraw: false }))
        } else {
            let x_range = match (a.from_x, a.to_x) {
                (Some(f), Some(t)) => Some(lerp_range(f, t, elapsed, a.duration_ms)),
                _ => view.x_range,
            };
            let y_range = match (a.from_y, a.to_y) {
                (Some(f), Some(t)) => Some(lerp_range(f, t, elapsed, a.duration_ms)),
                _ => view.y_range,
            };
            (s, Some(Action { publish: Some(ViewState { x_range, y_range }), capture: false, redraw: true }))
        }
    }

    fn on_press(&self, s: PlotterState, pos: Option<Point>, now: u64, vx: [i64; 2], vy: [i64; 2]) -> (r: (
        PlotterState,
        Option<Action>,
    ))
        requires
            self.wf(),
        ensures
            r == self.press_spec(s, pos, now, vx, vy),
            r.1 matches Some(a) ==> (a.publish matches Some(v) ==> v.wf()),
    {
        let cfg = &self.interaction;
        match pos {
            None => (s, None),
            Some(pos) => {
                if cfg.double_click_to_fit && s.last_click_time_ms.is_some() && since_exec(
                    now,
                    s.last_click_time_ms.unwrap(),
                ) < DOUBLE_CLICK_MS {
                    let v = ViewState {
                        x_range: if cfg.pan_x || cfg.zoom_x {
                            None
                        } else {
                            self.view_state.x_range
                        },
                        y_range: if cfg.pan_y || cfg.zoom_y {
                            None
                        } else {
                            self.view_state.y_range
                        },
                    };
                    return (
                        PlotterState {
                            last_click_time_ms: None,
                            interaction_mode: InteractionMode::Idle,
                            elastic_animation: None,
                            ..s
                        },
                        Some(Action { publish: Some(v), capture: true, redraw: false }),
                    );
                }
                let s1 = if cfg.double_click_to_fit {
                    PlotterState { last_click_time_ms: Some(now), ..s }
                } else {
                    s
                };
                if cfg.zoom_select && s.ctrl_held {
                    (
                        PlotterState {
                            interaction_mode: InteractionMode::ZoomSelecting,
                            drag_start: Some(pos),
                            zoom_select_current: Some(pos),
                            ..s1
                        },
                        Some(Action { publish: None, capture: true, redraw: false }),
                    )
                } else if cfg.pan_x || cfg.pan_y {
                    (
                        PlotterState {
                            elastic_animation: None,
                            interaction_mode: InteractionMode::Panning,
                            drag_start: Some(pos),
                            drag_start_view: Some(
                                ViewState { x_range: Some((vx[0], vx[1])), y_range: Some((vy[0], vy[1])) },
                            ),
                            ..s1
                        },
                        Some(Action { publish: None, capture: true, redraw: false }),
                    )
                } else {
                    (s1, None)
                }
            },
        }
    }

    fn on_release(&self, s: PlotterState, bounds: Rectangle, now: u64, vx: [i64; 2], vy: [i64; 2]) -> (r: (
        PlotterState,
        Option<Action>,
    ))
        requires
            self.wf(),
            s.wf(),
            in_domain(vx[0] as int) && in_domain(vx[1] as int),
            in_domain(vy[0] as int) && in_domain(vy[1] as int),
        ensures
            r == self.release_spec(s, bounds, now, vx, vy),
            r.1 matches Some(a) ==> (a.publish matches Some(v) ==> v.wf()),
    {
        let cfg = &self.interaction;
        match s.interaction_mode {
            InteractionMode::Panning => {
                let s1 = PlotterState {
                    interaction_mode: InteractionMode::Idle,
                    drag_start: None,
                    drag_start_view: None,
                    ..s
                };
                let cx = match self.view_state.x_range {
                    Some(r) => r,
                    None => (vx[0], vx[1]),
                };
                let cy = match self.view_state.y_range {
                    Some(r) => r,
                    None => (vy[0], vy[1]),
                };
                let x_out = cfg.pan_x && is_out_of_bounds(cx, cfg.x_bounds, cfg.boundary_padding);
                let y_out = cfg.pan_y && is_out_of_bounds(cy, cfg.y_bounds, cfg.boundary_padding);
                if cfg.elastic && (x_out || y_out) {
                    let tx = clamp_range_to_bounds(cx, cfg.x_bounds, cfg.boundary_padding);
                    let ty = clamp_range_to_bounds(cy, cfg.y_bounds, cfg.boundary_padding);
                    let anim = ElasticState {
                        from_x: if x_out {
                            Some(cx)
                        } else {
                            None
                        },
                        from_y: if y_out {
                            Some(cy)
                        } else {
                            None
                        },
                        to_x: if x_out {
                            Some(sat_pair_exec(tx.0 as i128, tx.1 as i128))
                        } else {
                            None
                        },
                        to_y: if y_out {
                            Some(sat_pair_exec(ty.0 as i128, ty.1 as i128))
                        } else {
                            None
                        },
                        start_time_ms: now,
                        duration_ms: cfg.elastic_duration_ms,
                    };
                    (
                        PlotterState { elastic_animation: Some(anim), ..s1 },
                        Some(Action { publish: None, capture: true, redraw: true }),
                    )
                } else {
                    (s1, Some(Action { publish: None, capture: true, redraw: false }))
                }
            },
            InteractionMode::ZoomSelecting => {
                let s1 = PlotterState {
                    interaction_mode: InteractionMode::Idle,
                    drag_start: None,
                    zoom_select_current: None,
                    ..s
                };
                match (s.drag_start, s.zoom_select_current) {
                    (Some(st), Some(cur)) => {
                        let dx = if cur.x >= st.x {
                            cur.x - st.x
                        } else {
                            st.x - cur.x
                        };
                        let dy = if cur.y >= st.y {
                            cur.y - st.y
                        } else {
                            st.y - cur.y
                        };
                        if frame_ok_exec(bounds, self.options.padding) && (dx > ZOOM_SELECT_MIN_PX || dy
                            > ZOOM_SELECT_MIN_PX) {
                            let padding = self.options.padding;
                            let a0 = Point {
                                x: saturate(st.x as i128 + bounds.x as i128),
                                y: saturate(st.y as i128 + bounds.y as i128),
                            };
                            let a1 = Point {
                                x: saturate(cur.x as i128 + bounds.x as i128),
                                y: saturate(cur.y as i128 + bounds.y as i128),
                            };
                            let corner_a = screen_to_data(a0, bounds, vx, vy, padding);
                            let corner_b = screen_to_data(a1, bounds, vx, vy, padding);
                            let v = ViewState {
                                x_range: if cfg.zoom_x && dx > ZOOM_SELECT_MIN_PX {
                                    Some(
                                        if corner_a.0 <= corner_b.0 {
                                            (corner_a.0, corner_b.0)
                                        } else {
                                            (corner_b.0, corner_a.0)
                                        },
                                    )
                                } else {
                                    self.view_state.x_range
                                },
                                y_range: if cfg.zoom_y && dy > ZOOM_SELECT_MIN_PX {
                                    Some(
                                        if corner_a.1 <= corner_b.1 {
                                            (corner_a.1, corner_b.1)
                                        } else {
                                            (corner_b.1, corner_a.1)
                                        },
                                    )
                                } else {
                                    self.view_state.y_range
                                },
                            };
                            (s1, Some(Action { publish: Some(v), capture: true, redraw: false }))
                        } else {
                            (s1, Some(Action { publish: None, capture: true, redraw: false }))
                        }
                    },
                    _ => (s1, Some(Action { publish: None, capture: true, redraw: false })),
                }
            },
            InteractionMode::Idle => (s, None),
        }
    }

    fn on_move(&self, s: PlotterState, position: Point, bounds: Rectangle) -> (r: (PlotterState, Option<Action>))
        requires
            self.wf(),
            s.wf(),
            frame_ok(bounds, self.options.padding),
            in_domain(position.x as int) && in_domain(position.y as int),
        ensures
            r == self.move_spec(s, position, bounds),
            r.1 matches Some(a) ==> (a.publish matches Some(v) ==> v.wf()),
    {
        let cfg = &self.interaction;
        let s0 = PlotterState { last_cursor: Some(position), ..s };
        let rel = Point { x: position.x - bounds.x, y: position.y - bounds.y };
        match s.interaction_mode {
            InteractionMode::Panning => match (s.drag_start, s.drag_start_view) {
                (Some(st), Some(sv)) => match (sv.x_range, sv.y_range) {
                    (Some(rx), Some(ry)) => {
                        let w = bounds.width - 2 * self.options.padding;
                        let h = bounds.height - 2 * self.options.padding;
                        let mx = -(rel.x as i128 - st.x as i128);
                        let my = rel.y as i128 - st.y as i128;
                        let sx = rx.1 as i128 - rx.0 as i128;
                        let sy = ry.1 as i128 - ry.0 as i128;
                        assert(-8 * COORD_MAX * COORD_MAX <= mx * sx <= 8 * COORD_MAX * COORD_MAX) by (nonlinear_arith)
                            requires
                                -4 * COORD_MAX <= mx <= 4 * COORD_MAX,
                                -2 * COORD_MAX <= sx <= 2 * COORD_MAX,
                        ;
                        assert(-8 * COORD_MAX * COORD_MAX <= my * sy <= 8 * COORD_MAX * COORD_MAX) by (nonlinear_arith)
                            requires
                                -4 * COORD_MAX <= my <= 4 * COORD_MAX,
                                -2 * COORD_MAX <= sy <= 2 * COORD_MAX,
                        ;
                        let ddx = trunc_div_exec(mx * sx, w as i128);
                        let ddy = trunc_div_exec(my * sy, h as i128);
                        let v = ViewState {
                            x_range: if cfg.pan_x {
                                Some(drag_axis_exec(rx, ddx, cfg.x_bounds, cfg))
                            } else {
                                self.view_state.x_range
                            },
                            y_range: if cfg.pan_y {
                                Some(drag_axis_exec(ry, ddy, cfg.y_bounds, cfg))
                            } else {
                                self.view_state.y_range
                            },
                        };
                        (s0, Some(Action { publish: Some(v), capture: true, redraw: false }))
                    },
                    _ => (s0, None),
                },
                _ => (s0, None),
            },
            InteractionMode::ZoomSelecting => (
                PlotterState { zoom_select_current: Some(rel), ..s0 },
                Some(Action { publish: None, capture: true, redraw: true }),
            ),
            InteractionMode::Idle => (s0, None),
        }
    }

    fn on_wheel(
        &self,
        s: PlotterState,
        delta: ScrollDelta,
        cursor: Option<Point>,
        bounds: Rectangle,
        vx: [i64; 2],
        vy: [i64; 2],
    ) -> (r: (PlotterState, Option<Action>))
        requires
            self.wf(),
            frame_ok(bounds, self.options.padding),
            cursor matches Some(p) ==> in_domain(p.x as int) && in_domain(p.y as int),
            in_domain(vx[0] as int) && in_domain(vx[1] as int),
            in_domain(vy[0] as int) && in_domain(vy[1] as int),
        ensures
            r == self.wheel_spec(s, delta, cursor, bounds, vx, vy),
            r.1 matches Some(a) ==> (a.publish matches Some(v) ==> v.wf()),
    {
        let cfg = &self.interaction;
        if !cfg.zoom_x && !cfg.zoom_y {
            return (s, None);
        }
        if position_in_exec(cursor, bounds).is_none() {
            return (s, None);
        }
        let scroll = scroll_lines_exec(delta);
        if scroll == 0 {
            return (s, None);
        }
        let f = zoom_factor_exec(scroll, cfg.zoom_speed);
        let c = screen_to_data(cursor.unwrap(), bounds, vx, vy, self.options.padding);
        let v = ViewState {
            x_range: if cfg.zoom_x {
                Some(zoom_axis_exec(vx, c.0, f, cfg.x_bounds, cfg.boundary_padding))
            } else {
                self.view_state.x_range
            },
            y_range: if cfg.zoom_y {
                Some(zoom_axis_exec(vy, c.1, f, cfg.y_bounds, cfg.boundary_padding))
            } else {
                self.view_state.y_range
            },
        };
        (PlotterState { elastic_animation: None, ..s }, Some(Action { publish: Some(v), capture: true, redraw: false }))
    }

    /// Advances the interaction state by one event, given the resolved view
    /// ranges of the frame.
    pub fn handle_event(
        &self,
        state: &mut PlotterState,
        event: &InputEvent,
        bounds: Rectangle,
        cursor: Option<Point>,
        now_ms: u64,
        view_x: [i64; 2],
        view_y: [i64; 2],
    ) -> (r: Option<Action>)
        requires
            self.wf(),
            old(state).wf(),
            cursor matches Some(p) ==> in_domain(p.x as int) && in_domain(p.y as int),
            event matches InputEvent::CursorMoved { position } ==> in_domain(position.x as int) && in_domain(
                position.y as int,
            ),
            in_domain(bounds.x as int) && in_domain(bounds.y as int),
            in_domain(bounds.width as int) && in_domain(bounds.height as int),
            in_domain(view_x[0] as int) && in_domain(view_x[1] as int),
            in_domain(view_y[0] as int) && in_domain(view_y[1] as int),
        ensures
            (*final(state), r) == self.transition(*old(state), *event, bounds, cursor, now_ms, view_x, view_y),
            final(state).wf(),
            r matches Some(a) ==> (a.publish matches Some(v) ==> v.wf()),
    {
        let s = *state;
        let cfg = &self.interaction;
        let any = cfg.pan_x || cfg.pan_y || cfg.zoom_x || cfg.zoom_y || cfg.double_click_to_fit || cfg.zoom_select;
        if !any {
            return None;
        }
        let frame = frame_ok_exec(bounds, self.options.padding);
        let (next, r) = match s.elastic_animation {
            Some(a) => self.tick(s, a, now_ms),
            None => match *event {
                InputEvent::ModifiersChanged { ctrl } => (PlotterState { ctrl_held: ctrl, ..s }, None),
                InputEvent::ButtonReleased => self.on_release(s, bounds, now_ms, view_x, view_y),
                InputEvent::ButtonPressed => self.on_press(
                    s,
                    position_in_exec(cursor, bounds),
                    now_ms,
                    view_x,
                    view_y,
                ),
                InputEvent::CursorMoved { position } if frame => self.on_move(s, position, bounds),
                InputEvent::WheelScrolled { delta } if frame => self.on_wheel(s, delta, cursor, bounds, view_x, view_y),
                _ => (s, None),
            },
        };
        *state = next;
        r
    }

    /// Reacts to one input event: resolves the visible ranges (clamped into
    /// bounds only while nothing is dragged or animated) and advances the
    /// interaction state.
    pub fn update(
        &self,
        state: &mut PlotterState,
        event: &InputEvent,
        bounds: Rectangle,
        cursor: Option<Point>,
        now_ms: u64,
    ) -> (r: Option<Action>)
        requires
            self.wf(),
            old(state).wf(),
            cursor matches Some(p) ==> in_domain(p.x as int) && in_domain(p.y as int),
            event matches InputEvent::CursorMoved { position } ==> in_domain(position.x as int) && in_domain(
                position.y as int,
            ),
            in_domain(bounds.x as int) && in_domain(bounds.y as int),
            in_domain(bounds.width as int) && in_domain(bounds.height as int),
        ensures
            exists|vx: [i64; 2], vy: [i64; 2], dx: [i64; 2], dy: [i64; 2]|
                {
                    &&& self.data_ranges_spec(dx, dy)
                    &&& (vx[0] as int, vx[1] as int) == crate::plotter::fit_axis(
                        self.view_state.x_range,
                        dx,
                        self.clamps(steady(*old(state)), true),
                        self.interaction.x_bounds,
                        self.interaction.boundary_padding as int,
                        self.options.autofit_padding as int,
                    )
                    &&& (vy[0] as int, vy[1] as int) == crate::plotter::fit_axis(
                        self.view_state.y_range,
                        dy,
                        self.clamps(steady(*old(state)), false),
                        self.interaction.y_bounds,
                        self.interaction.boundary_padding as int,
                        self.options.autofit_padding as int,
                    )
                    &&& (*final(state), r) == self.transition(*old(state), *event, bounds, cursor, now_ms, vx, vy)
                },
            final(state).wf(),
            r matches Some(a) ==> (a.publish matches Some(v) ==> v.wf()),
    {
        let steady_now = is_steady(state);
        let (vx, vy, dx, dy) = self.resolve_view_ranges(steady_now);
        self.handle_event(state, event, bounds, cursor, now_ms, vx, vy)
    }
}

/// No drag in progress and no animation running.
pub open spec fn steady(s: PlotterState) -> bool {
    s.interaction_mode == InteractionMode::Idle && s.elastic_animation is None
}

/// Whether nothing is dragged or animated, so that explicit ranges are
/// clamped into their bounds when resolving the frame.
pub fn is_steady(state: &PlotterState) -> (r: bool)
    ensures
        r == steady(*state),
{
    state.interaction_mode == InteractionMode::Idle && state.elastic_animation.is_none()
}

/// The selection rectangle to draw: its two corners while zoom-selecting.
pub fn selection_rect(state: &PlotterState) -> (r: Option<(Point, Point)>)
    ensures
        r == (if state.interaction_mode == InteractionMode::ZoomSelecting && state.drag_start is Some
            && state.zoom_select_current is Some {
            Some((state.drag_start->0, state.zoom_select_current->0))
        } else {
            None
        }),
{
    if state.interaction_mode == InteractionMode::ZoomSelecting {
        match (state.drag_start, state.zoom_select_current) {
            (Some(a), Some(b)) => Some((a, b)),
            _ => None,
        }
    } else {
        None
    }
}

/// The shift of a range of span `span` when the cursor moves `m` pixels
/// along a plot area `extent` pixels long.
pub open spec fn pan_shift(m: int, span: int, extent: int) -> int {
    trunc_div(m * span, extent)
}

/// On an axis with no bounds, a pan by a cursor offset followed by a pan
/// back by the opposite offset returns the range exactly to where it was,
/// so long as the first pan stays inside the domain.
pub proof fn lemma_pan_round_trip(r: (i64, i64), m: int, extent: int, cfg: InteractionConfig)
    requires
        extent > 0,
        in_domain(r.0 as int) && in_domain(r.1 as int),
        in_domain(r.0 + pan_shift(m, r.1 - r.0, extent)),
        in_domain(r.1 + pan_shift(m, r.1 - r.0, extent)),
    ensures
        ({
            let r1 = drag_axis(r, pan_shift(m, r.1 - r.0, extent), None, cfg);
            drag_axis(r1, pan_shift(-m, r1.1 - r1.0, extent), None, cfg) == r
        }),
{
    let span = r.1 - r.0;
    let d = pan_shift(m, span, extent);
    let r1 = drag_axis(r, d, None, cfg);
    assert(r1 == ((r.0 + d) as i64, (r.1 + d) as i64));
    assert(r1.1 - r1.0 == span);
    assert((-m) * span == -(m * span)) by (nonlinear_arith);
    assert(pan_shift(-m, span, extent) == -d);
}

/// The pointer to show over the plot.
#[derive(Clone, Copy, Debug, PartialEq, Eq, Structural)]
pub enum MouseInteraction {
    /// The host's usual pointer.
    Arrow,
    /// An open hand: a drag would pan.
    Grab,
    /// A closed hand: a pan is in progress.
    Grabbing,
    /// A cross: a selection is, or would be, drawn.
    Crosshair,
}

impl<'a> Plotter<'a> {
    /// The pointer for the current state: a closed hand while panning, a
    /// cross while selecting; over an idle plot, a cross when Ctrl would
    /// start a selection, else an open hand; the usual pointer elsewhere or
    /// when no drag or zoom is enabled.
    pub open spec fn mouse_interaction_spec(&self, s: PlotterState, bounds: Rectangle, cursor: Option<Point>) -> MouseInteraction {
        let cfg = self.interaction;
        if !(cfg.pan_x || cfg.pan_y || cfg.zoom_x || cfg.zoom_y || cfg.zoom_select) {
            MouseInteraction::Arrow
        } else {
            match s.interaction_mode {
                InteractionMode::Panning => MouseInteraction::Grabbing,
                InteractionMode::ZoomSelecting => MouseInteraction::Crosshair,
                InteractionMode::Idle => if cursor is Some && bounds.contains_spec(cursor->0) {
                    if cfg.zoom_select && s.ctrl_held {
                        MouseInteraction::Crosshair
                    } else {
                        MouseInteraction::Grab
                    }
                } else {
                    MouseInteraction::Arrow
                },
            }
        }
    }

    pub fn mouse_interaction(&self, state: &PlotterState, bounds: Rectangle, cursor: Option<Point>) -> (r: MouseInteraction)
        ensures
            r == self.mouse_interaction_spec(*state, bounds, cursor),
    {
        let cfg = &self.interaction;
        if !(cfg.pan_x || cfg.pan_y || cfg.zoom_x || cfg.zoom_y || cfg.zoom_select) {
            return MouseInteraction::Arrow;
        }
        match state.interaction_mode {
            InteractionMode::Panning => MouseInteraction::Grabbing,
            InteractionMode::ZoomSelecting => MouseInteraction::Crosshair,
            InteractionMode::Idle => {
                let over = match cursor {
                    Some(p) => bounds.contains(p),
                    None => false,
                };
                if over {
                    if cfg.zoom_select && state.ctrl_held {
                        MouseInteraction::Crosshair
                    } else {
                        MouseInteraction::Grab
                    }
                } else {
                    MouseInteraction::Arrow
                }
            },
        }
    }
}

impl<'a> Plotter<'a> {
    /// During a pan with no bounds on X, each cursor move publishes the
    /// drag-start X range shifted by the cursor's offset from where the drag
    /// started, and leaves the drag itself as it was. So the cursor may go
    /// back and forth any number of times: back at the drag start, the
    /// published X range is the drag-start range exactly.
    pub proof fn lemma_pan_back_and_forth(
        &self,
        s: PlotterState,
        position: Point,
        bounds: Rectangle,
        cursor: Option<Point>,
        now: u64,
        vx: [i64; 2],
        vy: [i64; 2],
    )
        requires
            any_interaction(self.interaction),
            frame_ok(bounds, self.options.padding),
            self.interaction.pan_x,
            self.interaction.x_bounds is None,
            s.elastic_animation is None,
            s.interaction_mode == InteractionMode::Panning,
            s.wf(),
            in_domain(position.x as int) && in_domain(position.y as int),
        ensures
            ({
                let (s2, r) = self.transition(s, InputEvent::CursorMoved { position }, bounds, cursor, now, vx, vy);
                let st = s.drag_start->0;
                let rx = s.drag_start_view->0.x_range->0;
                let w = bounds.width - 2 * self.options.padding;
                let m = -((position.x - bounds.x) - st.x);
                &&& s2.interaction_mode == InteractionMode::Panning
                &&& s2.drag_start == s.drag_start
                &&& s2.drag_start_view == s.drag_start_view
                &&& s2.elastic_animation is None
                &&& r is Some && r->0.publish is Some
                &&& r->0.publish->0.x_range == Some(
                    sat_pair(rx.0 + pan_shift(m, rx.1 - rx.0, w), rx.1 + pan_shift(m, rx.1 - rx.0, w)),
                )
                &&& (position.x - bounds.x == st.x ==> r->0.publish->0.x_range == Some(rx))
            }),
    {
        let st = s.drag_start->0;
        let rx = s.drag_start_view->0.x_range->0;
        let w = bounds.width - 2 * self.options.padding;
        let rel_x = ((position.x - bounds.x) as i64) as int;
        assert(rel_x == position.x - bounds.x);
        let m = -(rel_x - st.x);
        let d = pan_shift(m, rx.1 - rx.0, w);
        assert(m * (rx.1 - rx.0) == (-(rel_x - st.x)) * (rx.1 - rx.0));
        if rel_x == st.x {
            assert(m == 0);
            assert(m * (rx.1 - rx.0) == 0) by (nonlinear_arith)
                requires
                    m == 0,
            ;
            assert(d == 0);
        }
    }
}

} // verus!
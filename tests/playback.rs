use egui_plotter::charts::xytime::{mult_range, vertical_label, AxisRange, PlotRanges};
use egui_plotter::charts::{TimeData, XyTimeData};
use egui_plotter::playback::{duration_since, Playback};
use egui_plotter::style::{BackendColor, ShapeStyle};
use egui_plotter::{Fixed, PointerButtons, PointerInput, Region};

const SECOND: i64 = 1_000_000;

fn secs(s: i64) -> Fixed {
    Fixed::from_int(s as i32)
}

fn six_points() -> TimeData {
    let pts: Vec<(Fixed, Fixed)> = (0..6).map(|t| (secs(t), secs(t * t))).collect();
    TimeData::new(&pts, "m", "distance")
}

fn still() -> PointerInput {
    PointerInput {
        delta_x: Fixed::zero(),
        delta_y: Fixed::zero(),
        scroll_y: Fixed::zero(),
        buttons: PointerButtons { primary: false, middle: false, secondary: false },
    }
}

fn region() -> Region {
    Region { min_x: Fixed::zero(), min_y: Fixed::zero(), width: Fixed::from_int(400), height: Fixed::from_int(300) }
}

#[test]
fn playback_starts_at_first_time_plus_least_delta() {
    let mut chart = six_points();
    assert_eq!(chart.start_time(), secs(0));
    assert_eq!(chart.end_time(), secs(5));
    chart.start_playback(1_000 * SECOND);
    assert!(chart.is_playing());
    assert_eq!(chart.current_time(1_000 * SECOND), Fixed::from_micros(10));
    assert!(chart.is_playing());
}

#[test]
fn playback_stops_at_end_time() {
    let mut chart = six_points();
    chart.start_playback(0);
    assert_eq!(chart.current_time(5 * SECOND), secs(5));
    assert!(!chart.is_playing());
    // Stopped: the first time again.
    assert_eq!(chart.current_time(6 * SECOND), secs(0));
}

#[test]
fn playback_mid_way_and_speed() {
    let mut chart = six_points();
    chart.start_playback(0);
    assert_eq!(chart.current_time(2 * SECOND), Fixed::from_micros(2 * SECOND + 10));
    let mut fast = six_points().playback_speed(secs(2));
    assert_eq!(fast.get_playback_speed(), secs(2));
    fast.start_playback(0);
    assert_eq!(fast.current_time(SECOND), Fixed::from_micros(2 * SECOND + 10));
}

#[test]
fn pause_excludes_paused_time() {
    let mut paused = six_points();
    paused.start_playback(0);
    paused.toggle_playback(SECOND);
    assert!(!paused.is_playing());
    assert_eq!(paused.current_time(2 * SECOND), Fixed::from_micros(SECOND + 10));
    paused.toggle_playback(3 * SECOND);
    assert!(paused.is_playing());
    let mut straight = six_points();
    straight.start_playback(0);
    // Paused from 1 s to 3 s: at 4 s the chart shows what an unpaused one shows at 2 s.
    assert_eq!(paused.current_time(4 * SECOND), straight.current_time(2 * SECOND));
    assert_eq!(paused.current_time(4 * SECOND), Fixed::from_micros(2 * SECOND + 10));
}

#[test]
fn toggle_starts_a_stopped_chart() {
    let mut chart = six_points();
    assert!(!chart.is_playing());
    chart.toggle_playback(7);
    assert!(chart.is_playing());
    chart.stop_playback();
    assert!(!chart.is_playing());
}

#[test]
fn set_time_leaves_a_stopped_chart_paused_there() {
    let mut chart = six_points();
    chart.set_time(secs(3), 100 * SECOND);
    assert!(!chart.is_playing());
    assert_eq!(chart.current_time(200 * SECOND), Fixed::from_micros(3 * SECOND + 10));
    chart.toggle_playback(300 * SECOND);
    assert!(chart.is_playing());
    assert_eq!(chart.current_time(301 * SECOND), Fixed::from_micros(4 * SECOND + 10));
}

#[test]
fn set_time_on_a_running_chart_seeks() {
    let mut chart = six_points();
    chart.start_playback(0);
    chart.set_time(secs(1), 10 * SECOND);
    assert!(chart.is_playing());
    assert_eq!(chart.current_time(11 * SECOND), Fixed::from_micros(2 * SECOND + 10));
}

#[test]
fn elapsed_clock() {
    let mut p = Playback::new();
    assert_eq!(p.elapsed(50), 0);
    p.start_playback(100);
    assert_eq!(p.elapsed(350), 250);
    assert_eq!(p.elapsed(50), 0);
    assert_eq!(duration_since(5, 9), 0);
    assert_eq!(duration_since(i64::MAX, i64::MIN), i64::MAX);
}

#[test]
fn points_are_sorted_by_time() {
    let pts = vec![
        (secs(3), secs(30), secs(2)),
        (secs(1), secs(10), secs(0)),
        (secs(2), secs(20), secs(1)),
    ];
    let chart = XyTimeData::new(&pts, "x", "y", "c");
    assert_eq!(chart.times, vec![secs(0), secs(1), secs(2)]);
    assert_eq!(chart.points, vec![(secs(1), secs(10)), (secs(2), secs(20)), (secs(3), secs(30))]);
}

#[test]
fn ranges_grow_with_each_point() {
    let pts = vec![
        (secs(1), secs(5), secs(0)),
        (secs(-2), secs(7), secs(1)),
        (secs(4), secs(-1), secs(2)),
    ];
    let chart = XyTimeData::new(&pts, "x", "y", "c");
    let r = |a: i64, b: i64| AxisRange { start: secs(a), end: secs(b) };
    assert_eq!(chart.ranges[0], PlotRanges { x: r(1, 1), y: r(5, 5) });
    assert_eq!(chart.ranges[1], PlotRanges { x: r(-2, 1), y: r(5, 7) });
    assert_eq!(chart.ranges[2], PlotRanges { x: r(-2, 4), y: r(-1, 7) });
    assert_eq!(chart.chart.data.range, chart.ranges[2]);
}

#[test]
fn draw_shows_points_up_to_current_time() {
    let mut chart = six_points();
    chart.start_playback(0);
    chart.draw(&still(), region(), 2 * SECOND);
    // At 2.00001 s the first point not before it is the one at 3 s.
    assert_eq!(chart.chart.chart.data.points.len(), 4);
    assert_eq!(chart.chart.chart.data.range, chart.chart.ranges[3]);
    let mut idle = six_points();
    idle.draw(&still(), region(), 2 * SECOND);
    assert_eq!(idle.chart.chart.data.points.len(), 6);
}

#[test]
fn time_index_bounds() {
    let chart = six_points().chart;
    assert_eq!(chart.time_index(secs(-1)), 0);
    assert_eq!(chart.time_index(secs(2)), 2);
    assert_eq!(chart.time_index(Fixed::from_micros(2_500_000)), 3);
    assert_eq!(chart.time_index(secs(9)), 5);
}

#[test]
fn vertical_unit_label() {
    assert_eq!(vertical_label("ab"), "\na\nb\n\n");
    assert_eq!(vertical_label(""), "\n\n");
    let chart = six_points();
    assert_eq!(chart.chart.chart.data.y_unit, "\nm\n\n");
    assert_eq!(chart.chart.chart.data.x_unit, "seconds");
    assert_eq!(chart.chart.chart.data.caption, "distance");
}

#[test]
fn mult_range_about_midpoint() {
    let r = AxisRange { start: secs(2), end: secs(6) };
    assert_eq!(mult_range(r, secs(2)), AxisRange { start: secs(0), end: secs(8) });
    assert_eq!(mult_range(r, Fixed::from_micros(500_000)), AxisRange { start: secs(3), end: secs(5) });
}

#[test]
fn display_ranges_keep_ratio() {
    let chart = six_points();
    let cfg = &chart.chart.chart.data;
    // Plot room: 175 - 75 = 100 wide, 185 - 85 = 100 high; data 5 wide, 25 high.
    let r = cfg.display_ranges((0, 175), (0, 185)).unwrap();
    assert_eq!(r.y, cfg.range.y);
    assert_eq!(r.x, AxisRange { start: Fixed::from_micros(-10_000_000), end: Fixed::from_micros(15_000_000) });
    // No room left for the plot's height.
    assert_eq!(cfg.display_ranges((0, 175), (0, 85)), None);
}

#[test]
fn style_setters() {
    let style = ShapeStyle { color: BackendColor { alpha: Fixed::one(), rgb: (1, 2, 3) }, filled: true, stroke_width: 9 };
    let chart = six_points()
        .line_style(style)
        .grid_style(style)
        .subgrid_style(style)
        .axes_style(style)
        .text_color(style.color)
        .background_color(style.color)
        .ratio(secs(2));
    let d = &chart.chart.chart.data;
    assert_eq!(d.line_style, style);
    assert_eq!(d.grid_style, style);
    assert_eq!(d.subgrid_style, style);
    assert_eq!(d.axes_style, style);
    assert_eq!(d.text_color, style.color);
    assert_eq!(d.background_color, style.color);
    assert_eq!(d.ratio, secs(2));
}

#[test]
fn equal_times_keep_their_order() {
    let pts = vec![
        (secs(9), secs(1), secs(1)),
        (secs(7), secs(2), secs(0)),
        (secs(8), secs(3), secs(1)),
        (secs(6), secs(4), secs(0)),
    ];
    let chart = XyTimeData::new(&pts, "x", "y", "c");
    assert_eq!(chart.times, vec![secs(0), secs(0), secs(1), secs(1)]);
    assert_eq!(chart.points, vec![(secs(7), secs(2)), (secs(6), secs(4)), (secs(9), secs(1)), (secs(8), secs(3))]);
}

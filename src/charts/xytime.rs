//! An animatable line chart: points with a time each, shown in time order
//! as playback runs.
use vstd::prelude::*;
use vstd::string::*;

use crate::backend::{EguiBackend, Region};
use crate::chart::{mouse_defaults, Chart, MouseConfig, PointerInput};
use crate::fixed::{clamp_i64, div_trunc, mul_raw, quot_trunc, Fixed, ONE};
use crate::playback::{elapsed_spec, Playback};
use crate::style::{BackendColor, ShapeStyle};

verus! {

/// Smallest playback time past the first point, in microseconds: the chart
/// never shows an empty span of time.
pub const MIN_DELTA: i64 = 10;

/// Horizontal margin of the chart, in pixels.
pub const X_MARGIN: i32 = 25;

/// Vertical margin of the chart, in pixels.
pub const Y_MARGIN: i32 = 25;

/// Size of the label areas, in pixels.
pub const LABEL_AREA: i32 = 25;

/// Font size of the caption, in pixels.
pub const CAPTION_SIZE: i32 = 10;

/// A range of values on one axis.
#[derive(Debug, Clone, Copy, PartialEq, Eq, Structural)]
pub struct AxisRange {
    pub start: Fixed,
    pub end: Fixed,
}

/// The ranges of both axes.
#[derive(Debug, Clone, Copy, PartialEq, Eq, Structural)]
pub struct PlotRanges {
    pub x: AxisRange,
    pub y: AxisRange,
}

/// What the chart draws each frame: the points shown, the ranges of the
/// axes, the styles, the units and the caption.
#[derive(Debug, Clone)]
pub struct XyTimeConfig {
    pub points: Vec<(Fixed, Fixed)>,
    pub range: PlotRanges,
    pub line_style: ShapeStyle,
    pub grid_style: ShapeStyle,
    pub subgrid_style: ShapeStyle,
    pub axes_style: ShapeStyle,
    pub text_color: BackendColor,
    pub background_color: BackendColor,
    pub x_unit: String,
    /// The unit of the Y axis, one character to a line.
    pub y_unit: String,
    /// How many Y units one X unit is drawn as.
    pub ratio: Fixed,
    pub caption: String,
}

/// Smallest X among the first `k` points (the largest `i64` for none).
pub open spec fn min_x(pts: Seq<(Fixed, Fixed)>, k: int) -> int
    decreases k,
{
    if k <= 0 {
        i64::MAX as int
    } else {
        let m = min_x(pts, k - 1);
        if pts[k - 1].0.raw() < m { pts[k - 1].0.raw() } else { m }
    }
}

/// Largest X among the first `k` points (the smallest `i64` for none).
pub open spec fn max_x(pts: Seq<(Fixed, Fixed)>, k: int) -> int
    decreases k,
{
    if k <= 0 {
        i64::MIN as int
    } else {
        let m = max_x(pts, k - 1);
        if pts[k - 1].0.raw() > m { pts[k - 1].0.raw() } else { m }
    }
}

/// Smallest Y among the first `k` points (the largest `i64` for none).
pub open spec fn min_y(pts: Seq<(Fixed, Fixed)>, k: int) -> int
    decreases k,
{
    if k <= 0 {
        i64::MAX as int
    } else {
        let m = min_y(pts, k - 1);
        if pts[k - 1].1.raw() < m { pts[k - 1].1.raw() } else { m }
    }
}

/// Largest Y among the first `k` points (the smallest `i64` for none).
pub open spec fn max_y(pts: Seq<(Fixed, Fixed)>, k: int) -> int
    decreases k,
{
    if k <= 0 {
        i64::MIN as int
    } else {
        let m = max_y(pts, k - 1);
        if pts[k - 1].1.raw() > m { pts[k - 1].1.raw() } else { m }
    }
}

/// The ranges that hold the first `i + 1` points exactly.
pub open spec fn ranges_upto(pts: Seq<(Fixed, Fixed)>, i: int) -> PlotRanges {
    PlotRanges {
        x: AxisRange {
            start: Fixed { micros: min_x(pts, i + 1) as i64 },
            end: Fixed { micros: max_x(pts, i + 1) as i64 },
        },
        y: AxisRange {
            start: Fixed { micros: min_y(pts, i + 1) as i64 },
            end: Fixed { micros: max_y(pts, i + 1) as i64 },
        },
    }
}

/// Each character followed by a line break.
pub open spec fn stacked(s: Seq<char>) -> Seq<char>
    decreases s.len(),
{
    if s.len() == 0 {
        Seq::empty()
    } else {
        stacked(s.drop_last()).push(s.last()).push('\n')
    }
}

/// A label written top to bottom: a line break, each character on a line
/// of its own, and a closing line break.
pub open spec fn vertical_spec(s: Seq<char>) -> Seq<char> {
    seq!['\n'] + stacked(s) + seq!['\n']
}

/// Relies on `String::push`: appends one character.
#[verifier::external_body]
fn push_char(s: &mut String, c: char)
    ensures
        final(s)@ == old(s)@.push(c),
{
    s.push(c);
}

/// `out` is `inp` reordered by a one-to-one map of positions that keeps
/// points of equal time in their order.
pub open spec fn stable_by_time(inp: Seq<(Fixed, Fixed, Fixed)>, out: Seq<(Fixed, Fixed, Fixed)>) -> bool {
    exists|perm: Seq<int>|
        {
            &&& perm.len() == inp.len()
            &&& out.len() == inp.len()
            &&& forall|i: int| 0 <= i < perm.len() ==> 0 <= #[trigger] perm[i] < inp.len() && out[i] == inp[perm[i]]
            &&& forall|i: int, j: int| 0 <= i < j < perm.len() ==> perm[i] != perm[j]
            &&& forall|i: int, j: int|
                0 <= i < j < perm.len() && out[i].2 == out[j].2 ==> perm[i] < perm[j]
        }
}

/// Relies on `slice::sort_by_key`: the same points, in ascending order of
/// their time; the sort is stable, so points of equal time keep their order.
#[verifier::external_body]
fn sort_by_time(v: &mut Vec<(Fixed, Fixed, Fixed)>)
    ensures
        final(v)@.to_multiset() == old(v)@.to_multiset(),
        stable_by_time(old(v)@, final(v)@),
        forall|i: int, j: int|
            0 <= i <= j < final(v)@.len() ==> final(v)@[i].2.raw() <= final(v)@[j].2.raw(),
{
    v.sort_by_key(|p| p.2.micros);
}

/// A label written top to bottom, one character to a line.
pub fn vertical_label(s: &str) -> (r: String)
    ensures
        r@ == vertical_spec(s@),
{
    let mut out = String::new();
    push_char(&mut out, '\n');
    let n = s.unicode_len();
    let mut i: usize = 0;
    while i < n
        invariant
            n == s@.len(),
            i <= n,
            out@ == seq!['\n'] + stacked(s@.subrange(0, i as int)),
        decreases n - i,
    {
        let c = s.get_char(i);
        push_char(&mut out, c);
        push_char(&mut out, '\n');
        proof {
            let next = s@.subrange(0, i + 1);
            assert(next.drop_last() =~= s@.subrange(0, i as int));
            assert(next.last() == c);
            assert(seq!['\n'] + stacked(next) =~= (seq!['\n'] + stacked(s@.subrange(0, i as int))).push(c).push('\n'));
        }
        i = i + 1;
    }
    push_char(&mut out, '\n');
    proof {
        assert(s@.subrange(0, n as int) =~= s@);
        assert(out@ =~= vertical_spec(s@));
    }
    out
}

/// The first `n` points.
fn prefix(v: &Vec<(Fixed, Fixed)>, n: usize) -> (r: Vec<(Fixed, Fixed)>)
    requires
        n <= v@.len(),
    ensures
        r@ == v@.subrange(0, n as int),
{
    let mut out: Vec<(Fixed, Fixed)> = Vec::new();
    let mut i: usize = 0;
    while i < n
        invariant
            i <= n <= v@.len(),
            out@ == v@.subrange(0, i as int),
        decreases n - i,
    {
        out.push(v[i]);
        assert(out@ =~= v@.subrange(0, i + 1));
        i = i + 1;
    }
    out
}

/// A range widened (or narrowed) about its midpoint by `mult`.
pub open spec fn mult_range_spec(r: AxisRange, mult: int) -> AxisRange {
    let half = div_trunc(clamp_i64(r.end.raw() - r.start.raw()), 2);
    let mid = clamp_i64(r.end.raw() - half);
    let adjusted = mul_raw(half, mult);
    AxisRange {
        start: Fixed { micros: clamp_i64(mid - adjusted) as i64 },
        end: Fixed { micros: clamp_i64(mid + adjusted) as i64 },
    }
}

/// A range widened (or narrowed) about its midpoint by `mult`.
pub fn mult_range(range: AxisRange, mult: Fixed) -> (r: AxisRange)
    ensures
        r == mult_range_spec(range, mult.raw()),
{
    let half = range.end.saturating_sub(range.start).half();
    let midpoint = range.end.saturating_sub(half);
    let adjusted = half.saturating_mul(mult);
    AxisRange { start: midpoint.saturating_sub(adjusted), end: midpoint.saturating_add(adjusted) }
}

/// Rounding toward zero is off by less than the divisor.
proof fn lemma_div_trunc_close(a: int, d: int)
    requires
        d > 0,
    ensures
        -d < div_trunc(a, d) * d - a < d,
        a >= 0 ==> 0 <= div_trunc(a, d) * d <= a,
        a < 0 ==> a <= div_trunc(a, d) * d <= 0,
{
    if a >= 0 {
        vstd::arithmetic::div_mod::lemma_fundamental_div_mod(a, d);
        vstd::arithmetic::div_mod::lemma_mod_bound(a, d);
        let q = a / d;
        assert(q * d == d * q && 0 <= q * d) by (nonlinear_arith)
            requires
                a >= 0,
                d > 0,
                a == d * q + a % d,
                0 <= a % d < d,
        ;
        assert(div_trunc(a, d) == q);
    } else {
        vstd::arithmetic::div_mod::lemma_fundamental_div_mod(-a, d);
        vstd::arithmetic::div_mod::lemma_mod_bound(-a, d);
        let q = (-a) / d;
        assert(q * d == d * q && 0 <= q * d) by (nonlinear_arith)
            requires
                -a > 0,
                d > 0,
                -a == d * q + (-a) % d,
                0 <= (-a) % d < d,
        ;
        assert(div_trunc(a, d) == -q);
        assert(div_trunc(a, d) * d == -(q * d)) by (nonlinear_arith)
            requires
                div_trunc(a, d) == -q,
        ;
    }
}

/// Away from the bounds of `i64`, `mult_range` keeps the range's midpoint
/// and multiplies its width by `mult`, both up to the rounding of a few
/// millionths: the sum of the ends moves by at most one millionth, and the
/// width is off by less than two millionths plus `mult`'s share of one.
pub proof fn lemma_mult_range_about_midpoint(r: AxisRange, mult: int)
    requires
        -0x2000_0000_0000_0000 <= r.start.raw() <= 0x2000_0000_0000_0000,
        -0x2000_0000_0000_0000 <= r.end.raw() <= 0x2000_0000_0000_0000,
        -0x2000_0000_0000_0000 * ONE <= (r.end.raw() - r.start.raw()) * mult <= 0x2000_0000_0000_0000 * ONE,
        i64::MIN <= mult <= i64::MAX,
    ensures
        -1 <= (mult_range_spec(r, mult).start.raw() + mult_range_spec(r, mult).end.raw())
            - (r.start.raw() + r.end.raw()) <= 1,
        -(2 * ONE + crate::chart::abs(mult)) <= (mult_range_spec(r, mult).end.raw() - mult_range_spec(r, mult).start.raw()) * ONE
            - (r.end.raw() - r.start.raw()) * mult <= 2 * ONE + crate::chart::abs(mult),
{
    let delta = r.end.raw() - r.start.raw();
    assert(clamp_i64(delta) == delta);
    let half = div_trunc(delta, 2);
    lemma_div_trunc_close(delta, 2);
    let mid = r.end.raw() - half;
    assert(clamp_i64(mid) == mid);
    let p = half * mult;
    assert(-0x2000_0000_0000_0000 * ONE <= 2 * p <= 0x2000_0000_0000_0000 * ONE) by (nonlinear_arith)
        requires
            p == half * mult,
            -2 < half * 2 - delta < 2,
            delta >= 0 ==> 0 <= half * 2 <= delta,
            delta < 0 ==> delta <= half * 2 <= 0,
            -0x2000_0000_0000_0000 * ONE <= delta * mult <= 0x2000_0000_0000_0000 * ONE,
    ;
    let adj = div_trunc(p, ONE as int);
    lemma_div_trunc_close(p, ONE as int);
    assert(-0x1000_0000_0000_0000 <= adj <= 0x1000_0000_0000_0000) by (nonlinear_arith)
        requires
            -(ONE as int) < adj * ONE - p < ONE,
            -0x1000_0000_0000_0000 * ONE <= p <= 0x1000_0000_0000_0000 * ONE,
            ONE == 1_000_000,
    ;
    assert(mul_raw(half, mult) == adj);
    assert(clamp_i64(mid - adj) == mid - adj);
    assert(clamp_i64(mid + adj) == mid + adj);
    assert(-(ONE * 2 + crate::chart::abs(mult)) <= 2 * adj * ONE - delta * mult <= ONE * 2 + crate::chart::abs(mult))
        by (nonlinear_arith)
        requires
            -(ONE as int) < adj * ONE - p < ONE,
            p == half * mult,
            -2 < half * 2 - delta < 2,
            delta >= 0 ==> 0 <= half * 2 <= delta,
            delta < 0 ==> delta <= half * 2 <= 0,
            crate::chart::abs(mult) == (if mult < 0 { -mult } else { mult }),
    ;
}

/// The length of an axis range, saturated.
pub open spec fn span(r: AxisRange) -> int {
    clamp_i64(crate::chart::abs(clamp_i64(r.end.raw() - r.start.raw())))
}

/// The room the plot has on one axis: the pixel extent less margins, label
/// area and, on the vertical axis, the caption.
pub open spec fn room(px: (i32, i32), reserved: int) -> int {
    crate::chart::abs(px.1 - px.0) - reserved
}

/// How much the X range must be stretched against the Y range for one X
/// unit to be drawn as `ratio` Y units: the configured ratio, times the
/// data's height over its width, times the area's width over its height.
pub open spec fn display_ratio(ratio: int, ranges: PlotRanges, ax: int, ay: int) -> int {
    let data_ratio = clamp_i64(quot_trunc(span(ranges.y) * ONE, span(ranges.x)));
    let area_ratio = clamp_i64(quot_trunc(clamp_i64(ax * ONE) * ONE, clamp_i64(ay * ONE)));
    mul_raw(mul_raw(ratio, data_ratio), area_ratio)
}

/// The ranges to draw in an area of the given pixel extents: none when the
/// area has no height left for the plot; the data's ranges when their width
/// is zero or the display ratio is one or zero; otherwise the X range
/// stretched by a ratio above one, or the Y range by the inverse of one
/// below it.
pub open spec fn display_ranges_spec(ratio: int, ranges: PlotRanges, x_px: (i32, i32), y_px: (i32, i32)) -> Option<PlotRanges> {
    let ax = room(x_px, 2 * X_MARGIN + LABEL_AREA);
    let ay = room(y_px, 2 * Y_MARGIN + LABEL_AREA + CAPTION_SIZE);
    if clamp_i64(ay * ONE) == 0 {
        None
    } else if span(ranges.x) == 0 {
        Some(ranges)
    } else {
        let d = display_ratio(ratio, ranges, ax, ay);
        if d == ONE || d == 0 {
            Some(ranges)
        } else if d > ONE {
            Some(PlotRanges { x: mult_range_spec(ranges.x, d), ..ranges })
        } else {
            Some(PlotRanges { y: mult_range_spec(ranges.y, clamp_i64(quot_trunc(ONE * ONE, d))), ..ranges })
        }
    }
}

/// Pixels of an extent left after `reserved`, as a fixed-point value.
fn room_exec(px: (i32, i32), reserved: i32) -> (r: Fixed)
    requires
        0 <= reserved <= 100,
    ensures
        r.raw() == clamp_i64(room(px, reserved as int) * ONE),
{
    let d: i64 = px.1 as i64 - px.0 as i64;
    let a: i64 = if d < 0 { -d } else { d };
    let left: i64 = a - reserved as i64;
    Fixed::from_micros(left * ONE)
}

impl XyTimeConfig {
    /// The ranges to draw the chart with in an area whose pixel extents are
    /// `x_px` and `y_px`; none when the area leaves no height to the plot.
    pub fn display_ranges(&self, x_px: (i32, i32), y_px: (i32, i32)) -> (r: Option<PlotRanges>)
        ensures
            r == display_ranges_spec(self.ratio.raw(), self.range, x_px, y_px),
    {
        let ax = room_exec(x_px, 2 * X_MARGIN + LABEL_AREA);
        let ay = room_exec(y_px, 2 * Y_MARGIN + LABEL_AREA + CAPTION_SIZE);
        if ay.micros == 0 {
            return None;
        }
        let ranges = self.range;
        let x_delta = ranges.x.end.saturating_sub(ranges.x.start).saturating_abs();
        let y_delta = ranges.y.end.saturating_sub(ranges.y.start).saturating_abs();
        if x_delta.micros == 0 {
            return Some(ranges);
        }
        let data_ratio = y_delta.saturating_div(x_delta);
        let area_ratio = ax.saturating_div(ay);
        let display = self.ratio.saturating_mul(data_ratio).saturating_mul(area_ratio);
        if display.micros == ONE || display.micros == 0 {
            Some(ranges)
        } else if display.micros > ONE {
            Some(PlotRanges { x: mult_range(ranges.x, display), y: ranges.y })
        } else {
            let inverse = Fixed::one().saturating_div(display);
            Some(PlotRanges { x: ranges.x, y: mult_range(ranges.y, inverse) })
        }
    }
}

/// Points and their times joined back into triples.
pub open spec fn joined(points: Seq<(Fixed, Fixed)>, times: Seq<Fixed>) -> Seq<(Fixed, Fixed, Fixed)> {
    Seq::new(points.len(), |i: int| (points[i].0, points[i].1, times[i]))
}

/// The playback time shown at a given elapsed time, in microseconds: the
/// first point's time plus the least delta plus the elapsed time scaled by
/// the speed, or the last point's time once that is reached.
pub open spec fn time_at(first: int, last: int, speed: int, elapsed: int) -> int {
    let delta = clamp_i64(MIN_DELTA + crate::fixed::mul_raw(speed, elapsed));
    if clamp_i64(last - first) > delta {
        clamp_i64(delta + first)
    } else {
        last
    }
}

/// Whether playback is over at a given elapsed time.
pub open spec fn finished_at(first: int, last: int, speed: int, elapsed: int) -> bool {
    let delta = clamp_i64(MIN_DELTA + crate::fixed::mul_raw(speed, elapsed));
    !(clamp_i64(last - first) > delta)
}

/// A pause and a resume leave the paused time out of the playback time:
/// paused at `t1` and resumed at `t2`, the chart shows at `t3` the time that
/// a clock never paused shows at `t3 - (t2 - t1)`.
pub proof fn lemma_pause_resume_time(p: Playback, first: int, last: int, t1: i64, t2: i64, t3: i64)
    requires
        p.start is Some,
        p.pause is None,
        p.start.unwrap() <= t1 <= t2 <= t3,
        t3 - p.start.unwrap() <= i64::MAX,
    ensures
        time_at(first, last, p.speed.raw(),
            elapsed_spec(crate::playback::toggled(crate::playback::toggled(p, t1), t2), t3 as int))
            == time_at(first, last, p.speed.raw(), elapsed_spec(p, t3 - (t2 - t1))),
{
    crate::playback::lemma_pause_excluded(p, t1, t2, t3);
}

/// The chart after one frame drawn at `now`, and the surface `r` it is drawn
/// on. The transform takes the pointer input; the surface is the region
/// panned and zoomed by it. While playback is started, the clock moves on
/// (stopping at the last point's time) and the chart shows the points up to
/// the first one whose time is not before the current time, or all of them,
/// with the ranges that fit them. Nothing else changes.
pub open spec fn frame_after(
    old: XyTimeData,
    new: XyTimeData,
    input: PointerInput,
    region: Region,
    now: int,
    r: EguiBackend,
) -> bool {
    &&& new.points == old.points
    &&& new.times == old.times
    &&& new.ranges == old.ranges
    &&& new.chart.mouse == old.chart.mouse
    &&& new.chart.transform == crate::chart::next_transform(old.chart.transform, old.chart.mouse, input)
    &&& r == (EguiBackend {
        region,
        x: new.chart.transform.x,
        y: new.chart.transform.y,
        scale: new.chart.transform.scale,
    })
    &&& new.playback.pause == old.playback.pause
    &&& new.playback.speed == old.playback.speed
    &&& new.chart.data.line_style == old.chart.data.line_style
    &&& new.chart.data.grid_style == old.chart.data.grid_style
    &&& new.chart.data.subgrid_style == old.chart.data.subgrid_style
    &&& new.chart.data.axes_style == old.chart.data.axes_style
    &&& new.chart.data.text_color == old.chart.data.text_color
    &&& new.chart.data.background_color == old.chart.data.background_color
    &&& new.chart.data.x_unit == old.chart.data.x_unit
    &&& new.chart.data.y_unit == old.chart.data.y_unit
    &&& new.chart.data.ratio == old.chart.data.ratio
    &&& new.chart.data.caption == old.chart.data.caption
    &&& old.playback.start is Some ==> {
        let e = elapsed_spec(old.playback, now);
        let (f, l, v) = (old.first_time(), old.last_time(), old.playback.speed.raw());
        let t = time_at(f, l, v, e);
        &&& new.playback.start == if finished_at(f, l, v, e) {
            None
        } else {
            old.playback.start
        }
        &&& exists|k: int|
            0 <= k < old.points@.len()
                && (forall|j: int| 0 <= j < k ==> old.times@[j].raw() < t)
                && (k + 1 < old.times@.len() ==> old.times@[k].raw() >= t)
                && new.chart.data.points@ == old.points@.subrange(0, k + 1)
                && new.chart.data.range == old.ranges@[k]
    }
    &&& old.playback.start is None ==> {
        &&& new.playback == old.playback
        &&& new.chart.data.points@ == old.chart.data.points@
        &&& new.chart.data.range == old.chart.data.range
    }
}

/// The default style of the plotted line: dark red, two pixels wide.
pub open spec fn default_line_style() -> ShapeStyle {
    ShapeStyle { color: BackendColor { alpha: Fixed::one_spec(), rgb: (183, 28, 28) }, filled: false, stroke_width: 2 }
}

/// The default style of the grid: grey, two pixels wide.
pub open spec fn default_grid_style() -> ShapeStyle {
    ShapeStyle { color: BackendColor { alpha: Fixed::one_spec(), rgb: (158, 158, 158) }, filled: false, stroke_width: 2 }
}

/// The default style of the subgrid: dark grey, one pixel wide.
pub open spec fn default_subgrid_style() -> ShapeStyle {
    ShapeStyle { color: BackendColor { alpha: Fixed::one_spec(), rgb: (97, 97, 97) }, filled: false, stroke_width: 1 }
}

/// The default style of the axes: black, two pixels wide.
pub open spec fn default_axes_style() -> ShapeStyle {
    ShapeStyle { color: BackendColor { alpha: Fixed::one_spec(), rgb: (0, 0, 0) }, filled: false, stroke_width: 2 }
}

/// Animatable 2d line chart.
///
/// Each point has a time: the chart shows, while playback runs, the points
/// whose time has come, with the axes fitted to them.
pub struct XyTimeData {
    pub playback: Playback,
    /// The points, in time order.
    pub points: Vec<(Fixed, Fixed)>,
    /// For each point, the ranges that hold it and every point before it.
    pub ranges: Vec<PlotRanges>,
    /// The time of each point, in seconds.
    pub times: Vec<Fixed>,
    pub chart: Chart<XyTimeConfig>,
}

impl XyTimeData {
    /// At least one point, times in order, and the ranges of every prefix.
    pub open spec fn wf(&self) -> bool {
        &&& self.times@.len() > 0
        &&& self.points@.len() == self.times@.len()
        &&& self.ranges@.len() == self.times@.len()
        &&& forall|i: int, j: int|
            0 <= i <= j < self.times@.len() ==> self.times@[i].raw() <= self.times@[j].raw()
        &&& forall|i: int| 0 <= i < self.ranges@.len() ==> #[trigger] self.ranges@[i] == ranges_upto(self.points@, i)
    }

    /// The time of the first point.
    pub open spec fn first_time(&self) -> int {
        self.times@[0].raw()
    }

    /// The time of the last point.
    pub open spec fn last_time(&self) -> int {
        self.times@.last().raw()
    }

    /// A chart of `points`, each an X, a Y and the time at which it is
    /// shown; the pointer pans, rotates and zooms it.
    pub fn new(points: &[(Fixed, Fixed, Fixed)], x_unit: &str, y_unit: &str, caption: &str) -> (r: XyTimeData)
        requires
            points@.len() > 0,
        ensures
            r.wf(),
            joined(r.points@, r.times@).to_multiset() == points@.to_multiset(),
            stable_by_time(points@, joined(r.points@, r.times@)),
            r.playback == (Playback { start: None, pause: None, speed: Fixed::one_spec() }),
            r.chart.transform == crate::chart::default_transform(),
            r.chart.mouse == mouse_defaults(true, true, true),
            r.chart.data.points@ == r.points@,
            r.chart.data.range == r.ranges@.last(),
            r.chart.data.line_style == default_line_style(),
            r.chart.data.grid_style == default_grid_style(),
            r.chart.data.subgrid_style == default_subgrid_style(),
            r.chart.data.axes_style == default_axes_style(),
            r.chart.data.text_color == (BackendColor { alpha: Fixed::one_spec(), rgb: (0, 0, 0) }),
            r.chart.data.background_color == (BackendColor { alpha: Fixed::one_spec(), rgb: (255, 255, 255) }),
            r.chart.data.x_unit@ == x_unit@,
            r.chart.data.y_unit@ == vertical_spec(y_unit@),
            r.chart.data.ratio == Fixed::one_spec(),
            r.chart.data.caption@ == caption@,
    {
        let mut sorted: Vec<(Fixed, Fixed, Fixed)> = Vec::new();
        let mut i: usize = 0;
        while i < points.len()
            invariant
                i <= points@.len(),
                sorted@ == points@.subrange(0, i as int),
            decreases points@.len() - i,
        {
            sorted.push(points[i]);
            i = i + 1;
        }
        assert(sorted@ =~= points@);
        sort_by_time(&mut sorted);
        proof {
            sorted@.to_multiset_ensures();
            points@.to_multiset_ensures();
        }

        let mut times: Vec<Fixed> = Vec::new();
        let mut pts: Vec<(Fixed, Fixed)> = Vec::new();
        let mut i: usize = 0;
        while i < sorted.len()
            invariant
                i <= sorted@.len(),
                times@.len() == i,
                pts@.len() == i,
                joined(pts@, times@) =~= sorted@.subrange(0, i as int),
                forall|j: int| 0 <= j < i ==> #[trigger] times@[j] == sorted@[j].2,
            decreases sorted@.len() - i,
        {
            let p = sorted[i];
            times.push(p.2);
            pts.push((p.0, p.1));
            assert(joined(pts@, times@) =~= sorted@.subrange(0, i + 1));
            i = i + 1;
        }
        assert(joined(pts@, times@) =~= sorted@);

        let mut ranges: Vec<PlotRanges> = Vec::new();
        let mut lo_x: i64 = i64::MAX;
        let mut lo_y: i64 = i64::MAX;
        let mut hi_x: i64 = i64::MIN;
        let mut hi_y: i64 = i64::MIN;
        let mut i: usize = 0;
        while i < pts.len()
            invariant
                i <= pts@.len(),
                ranges@.len() == i,
                lo_x == min_x(pts@, i as int),
                hi_x == max_x(pts@, i as int),
                lo_y == min_y(pts@, i as int),
                hi_y == max_y(pts@, i as int),
                forall|j: int| 0 <= j < i ==> #[trigger] ranges@[j] == ranges_upto(pts@, j),
            decreases pts@.len() - i,
        {
            let (x, y) = pts[i];
            if x.micros < lo_x {
                lo_x = x.micros;
            }
            if y.micros < lo_y {
                lo_y = y.micros;
            }
            if x.micros > hi_x {
                hi_x = x.micros;
            }
            if y.micros > hi_y {
                hi_y = y.micros;
            }
            ranges.push(
                PlotRanges {
                    x: AxisRange { start: Fixed::from_micros(lo_x), end: Fixed::from_micros(hi_x) },
                    y: AxisRange { start: Fixed::from_micros(lo_y), end: Fixed::from_micros(hi_y) },
                },
            );
            i = i + 1;
        }

        let last = ranges[ranges.len() - 1];
        let config = XyTimeConfig {
            points: prefix(&pts, pts.len()),
            range: last,
            line_style: ShapeStyle { color: BackendColor::opaque(183, 28, 28), filled: false, stroke_width: 2 },
            grid_style: ShapeStyle { color: BackendColor::opaque(158, 158, 158), filled: false, stroke_width: 2 },
            subgrid_style: ShapeStyle { color: BackendColor::opaque(97, 97, 97), filled: false, stroke_width: 1 },
            axes_style: ShapeStyle { color: BackendColor::opaque(0, 0, 0), filled: false, stroke_width: 2 },
            text_color: BackendColor::opaque(0, 0, 0),
            background_color: BackendColor::opaque(255, 255, 255),
            x_unit: x_unit.to_owned(),
            y_unit: vertical_label(y_unit),
            ratio: Fixed::one(),
            caption: caption.to_owned(),
        };
        let mut chart = Chart::new(config);
        chart.mouse = MouseConfig::enabled();
        XyTimeData { playback: Playback::new(), points: pts, ranges, times, chart }
    }

    /// The time of the first point.
    pub fn start_time(&self) -> (r: Fixed)
        requires
            self.wf(),
        ensures
            r.raw() == self.first_time(),
    {
        self.times[0]
    }

    /// The time of the last point.
    pub fn end_time(&self) -> (r: Fixed)
        requires
            self.wf(),
        ensures
            r.raw() == self.last_time(),
    {
        self.times[self.times.len() - 1]
    }

    /// The playback time at `now`: the first point's time while stopped;
    /// while started, the time reached at the playback speed, until the last
    /// point's time, where playback stops.
    pub fn current_time(&mut self, now: i64) -> (r: Fixed)
        requires
            old(self).wf(),
        ensures
            final(self).wf(),
            final(self).points == old(self).points,
            final(self).times == old(self).times,
            final(self).ranges == old(self).ranges,
            final(self).chart == old(self).chart,
            final(self).playback.pause == old(self).playback.pause,
            final(self).playback.speed == old(self).playback.speed,
            old(self).playback.start is None ==> r.raw() == old(self).first_time()
                && final(self).playback == old(self).playback,
            old(self).playback.start is Some ==> {
                let e = elapsed_spec(old(self).playback, now as int);
                let (f, l, v) = (old(self).first_time(), old(self).last_time(), old(self).playback.speed.raw());
                &&& r.raw() == time_at(f, l, v, e)
                &&& final(self).playback.start == if finished_at(f, l, v, e) {
                    None
                } else {
                    old(self).playback.start
                }
            },
    {
        if self.playback.start.is_some() {
            let time_start = self.start_time();
            let time_end = self.end_time();
            let base_delta = time_end.saturating_sub(time_start);
            let elapsed = Fixed::from_micros(self.playback.elapsed(now));
            let current_delta = Fixed::from_micros(MIN_DELTA).saturating_add(
                self.playback.speed.saturating_mul(elapsed),
            );
            if base_delta.micros > current_delta.micros {
                current_delta.saturating_add(time_start)
            } else {
                self.playback.start = None;
                time_end
            }
        } else {
            self.start_time()
        }
    }

    /// Index of the last point shown at playback time `time`: the first
    /// point whose time is not before `time`, or the last point if all are.
    pub fn time_index(&self, time: Fixed) -> (r: usize)
        requires
            self.wf(),
        ensures
            r < self.times@.len(),
            forall|j: int| 0 <= j < r ==> self.times@[j].raw() < time.raw(),
            r + 1 < self.times@.len() ==> self.times@[r as int].raw() >= time.raw(),
    {
        let mut lo: usize = 0;
        let mut hi: usize = self.times.len();
        while lo < hi
            invariant
                self.wf(),
                0 <= lo <= hi <= self.times@.len(),
                forall|j: int| 0 <= j < lo ==> self.times@[j].raw() < time.raw(),
                forall|j: int| hi <= j < self.times@.len() ==> self.times@[j].raw() >= time.raw(),
            decreases hi - lo,
        {
            let mid = lo + (hi - lo) / 2;
            if self.times[mid].micros < time.micros {
                lo = mid + 1;
            } else {
                hi = mid;
            }
        }
        if lo < self.times.len() {
            lo
        } else {
            self.times.len() - 1
        }
    }

    /// Moves playback on to `now` and gives the surface to draw this frame
    /// on. While playback is started the chart shows the points up to the
    /// current time's index, with the ranges that fit them.
    pub fn draw(&mut self, input: &PointerInput, region: Region, now: i64) -> (r: EguiBackend)
        requires
            old(self).wf(),
        ensures
            final(self).wf(),
            frame_after(*old(self), *final(self), *input, region, now as int, r),
    {
        if self.playback.start.is_some() {
            let time = self.current_time(now);
            let index = self.time_index(time);
            let n = self.points.len();
            assert(index < n);
            let shown = prefix(&self.points, index + 1);
            let range = self.ranges[index];
            self.chart.data.points = shown;
            self.chart.data.range = range;
            assert(self.chart.data.points@ == self.points@.subrange(0, index + 1));
        }
        self.chart.draw(input, region)
    }

    /// Starts playback at `now`, from the first point.
    pub fn start_playback(&mut self, now: i64)
        ensures
            final(self).playback == (Playback { start: Some(now), pause: None, ..old(self).playback }),
            final(self).points == old(self).points,
            final(self).times == old(self).times,
            final(self).ranges == old(self).ranges,
            final(self).chart == old(self).chart,
    {
        self.playback.start_playback(now);
    }

    /// Stops playback.
    pub fn stop_playback(&mut self)
        ensures
            final(self).playback == (Playback { start: None, pause: None, ..old(self).playback }),
            final(self).points == old(self).points,
            final(self).times == old(self).times,
            final(self).ranges == old(self).ranges,
            final(self).chart == old(self).chart,
    {
        self.playback.stop_playback();
    }

    /// Starts, pauses or resumes playback at `now`.
    pub fn toggle_playback(&mut self, now: i64)
        ensures
            final(self).playback == crate::playback::toggled(old(self).playback, now),
            final(self).points == old(self).points,
            final(self).times == old(self).times,
            final(self).ranges == old(self).ranges,
            final(self).chart == old(self).chart,
    {
        self.playback.toggle_playback(now);
    }

    /// Whether playback runs.
    pub fn is_playing(&self) -> (r: bool)
        ensures
            r == self.playback.playing(),
    {
        self.playback.is_playing()
    }

    /// Sets the style of the plotted line.
    pub fn set_line_style(&mut self, line_style: ShapeStyle)
        ensures
            final(self).chart.data.line_style == line_style,
            final(self).chart.transform == old(self).chart.transform,
            final(self).chart.mouse == old(self).chart.mouse,
            final(self).chart.data.points == old(self).chart.data.points,
            final(self).chart.data.range == old(self).chart.data.range,
            final(self).playback == old(self).playback,
            final(self).points == old(self).points,
            final(self).times == old(self).times,
            final(self).ranges == old(self).ranges,
    {
        self.chart.data.line_style = line_style;
    }

    /// Sets the style of the plotted line. Consumes self.
    pub fn line_style(self, line_style: ShapeStyle) -> (r: XyTimeData)
        ensures
            r.chart.data.line_style == line_style,
            r.chart.transform == self.chart.transform,
            r.chart.mouse == self.chart.mouse,
            r.chart.data.points == self.chart.data.points,
            r.chart.data.range == self.chart.data.range,
            r.playback == self.playback,
            r.points == self.points,
            r.times == self.times,
            r.ranges == self.ranges,
    {
        let mut s = self;
        s.set_line_style(line_style);
        s
    }

    /// Sets the style of the grid.
    pub fn set_grid_style(&mut self, grid_style: ShapeStyle)
        ensures
            final(self).chart.data.grid_style == grid_style,
            final(self).chart.transform == old(self).chart.transform,
            final(self).chart.mouse == old(self).chart.mouse,
            final(self).chart.data.points == old(self).chart.data.points,
            final(self).chart.data.range == old(self).chart.data.range,
            final(self).playback == old(self).playback,
            final(self).points == old(self).points,
            final(self).times == old(self).times,
            final(self).ranges == old(self).ranges,
    {
        self.chart.data.grid_style = grid_style;
    }

    /// Sets the style of the grid. Consumes self.
    pub fn grid_style(self, grid_style: ShapeStyle) -> (r: XyTimeData)
        ensures
            r.chart.data.grid_style == grid_style,
            r.chart.transform == self.chart.transform,
            r.chart.mouse == self.chart.mouse,
            r.chart.data.points == self.chart.data.points,
            r.chart.data.range == self.chart.data.range,
            r.playback == self.playback,
            r.points == self.points,
            r.times == self.times,
            r.ranges == self.ranges,
    {
        let mut s = self;
        s.set_grid_style(grid_style);
        s
    }

    /// Sets the style of the subgrid.
    pub fn set_subgrid_style(&mut self, subgrid_style: ShapeStyle)
        ensures
            final(self).chart.data.subgrid_style == subgrid_style,
            final(self).chart.transform == old(self).chart.transform,
            final(self).chart.mouse == old(self).chart.mouse,
            final(self).chart.data.points == old(self).chart.data.points,
            final(self).chart.data.range == old(self).chart.data.range,
            final(self).playback == old(self).playback,
            final(self).points == old(self).points,
            final(self).times == old(self).times,
            final(self).ranges == old(self).ranges,
    {
        self.chart.data.subgrid_style = subgrid_style;
    }

    /// Sets the style of the subgrid. Consumes self.
    pub fn subgrid_style(self, subgrid_style: ShapeStyle) -> (r: XyTimeData)
        ensures
            r.chart.data.subgrid_style == subgrid_style,
            r.chart.transform == self.chart.transform,
            r.chart.mouse == self.chart.mouse,
            r.chart.data.points == self.chart.data.points,
            r.chart.data.range == self.chart.data.range,
            r.playback == self.playback,
            r.points == self.points,
            r.times == self.times,
            r.ranges == self.ranges,
    {
        let mut s = self;
        s.set_subgrid_style(subgrid_style);
        s
    }

    /// Sets the style of the axes.
    pub fn set_axes_style(&mut self, axes_style: ShapeStyle)
        ensures
            final(self).chart.data.axes_style == axes_style,
            final(self).chart.transform == old(self).chart.transform,
            final(self).chart.mouse == old(self).chart.mouse,
            final(self).chart.data.points == old(self).chart.data.points,
            final(self).chart.data.range == old(self).chart.data.range,
            final(self).playback == old(self).playback,
            final(self).points == old(self).points,
            final(self).times == old(self).times,
            final(self).ranges == old(self).ranges,
    {
        self.chart.data.axes_style = axes_style;
    }

    /// Sets the style of the axes. Consumes self.
    pub fn axes_style(self, axes_style: ShapeStyle) -> (r: XyTimeData)
        ensures
            r.chart.data.axes_style == axes_style,
            r.chart.transform == self.chart.transform,
            r.chart.mouse == self.chart.mouse,
            r.chart.data.points == self.chart.data.points,
            r.chart.data.range == self.chart.data.range,
            r.playback == self.playback,
            r.points == self.points,
            r.times == self.times,
            r.ranges == self.ranges,
    {
        let mut s = self;
        s.set_axes_style(axes_style);
        s
    }

    /// Sets the color of the text.
    pub fn set_text_color(&mut self, text_color: BackendColor)
        ensures
            final(self).chart.data.text_color == text_color,
            final(self).chart.transform == old(self).chart.transform,
            final(self).chart.mouse == old(self).chart.mouse,
            final(self).chart.data.points == old(self).chart.data.points,
            final(self).chart.data.range == old(self).chart.data.range,
            final(self).playback == old(self).playback,
            final(self).points == old(self).points,
            final(self).times == old(self).times,
            final(self).ranges == old(self).ranges,
    {
        self.chart.data.text_color = text_color;
    }

    /// Sets the color of the text. Consumes self.
    pub fn text_color(self, text_color: BackendColor) -> (r: XyTimeData)
        ensures
            r.chart.data.text_color == text_color,
            r.chart.transform == self.chart.transform,
            r.chart.mouse == self.chart.mouse,
            r.chart.data.points == self.chart.data.points,
            r.chart.data.range == self.chart.data.range,
            r.playback == self.playback,
            r.points == self.points,
            r.times == self.times,
            r.ranges == self.ranges,
    {
        let mut s = self;
        s.set_text_color(text_color);
        s
    }

    /// Sets the background color.
    pub fn set_background_color(&mut self, background_color: BackendColor)
        ensures
            final(self).chart.data.background_color == background_color,
            final(self).chart.transform == old(self).chart.transform,
            final(self).chart.mouse == old(self).chart.mouse,
            final(self).chart.data.points == old(self).chart.data.points,
            final(self).chart.data.range == old(self).chart.data.range,
            final(self).playback == old(self).playback,
            final(self).points == old(self).points,
            final(self).times == old(self).times,
            final(self).ranges == old(self).ranges,
    {
        self.chart.data.background_color = background_color;
    }

    /// Sets the background color. Consumes self.
    pub fn background_color(self, background_color: BackendColor) -> (r: XyTimeData)
        ensures
            r.chart.data.background_color == background_color,
            r.chart.transform == self.chart.transform,
            r.chart.mouse == self.chart.mouse,
            r.chart.data.points == self.chart.data.points,
            r.chart.data.range == self.chart.data.range,
            r.playback == self.playback,
            r.points == self.points,
            r.times == self.times,
            r.ranges == self.ranges,
    {
        let mut s = self;
        s.set_background_color(background_color);
        s
    }

    /// Sets how many Y units one X unit is drawn as.
    pub fn set_ratio(&mut self, ratio: Fixed)
        ensures
            final(self).chart.data.ratio == ratio,
            final(self).chart.transform == old(self).chart.transform,
            final(self).chart.mouse == old(self).chart.mouse,
            final(self).chart.data.points == old(self).chart.data.points,
            final(self).chart.data.range == old(self).chart.data.range,
            final(self).playback == old(self).playback,
            final(self).points == old(self).points,
            final(self).times == old(self).times,
            final(self).ranges == old(self).ranges,
    {
        self.chart.data.ratio = ratio;
    }

    /// Sets how many Y units one X unit is drawn as. Consumes self.
    pub fn ratio(self, ratio: Fixed) -> (r: XyTimeData)
        ensures
            r.chart.data.ratio == ratio,
            r.chart.transform == self.chart.transform,
            r.chart.mouse == self.chart.mouse,
            r.chart.data.points == self.chart.data.points,
            r.chart.data.range == self.chart.data.range,
            r.playback == self.playback,
            r.points == self.points,
            r.times == self.times,
            r.ranges == self.ranges,
    {
        let mut s = self;
        s.set_ratio(ratio);
        s
    }

    /// Sets the playback time to `time` seconds at `now`, where playback
    /// resumes; a stopped or paused chart is left paused there.
    pub fn set_time(&mut self, time: Fixed, now: i64)
        requires
            time.raw() >= 0,
        ensures
            final(self).playback.start == Some(clamp_i64(now - time.raw()) as i64),
            final(self).playback.pause == (if old(self).playback.start is None || old(self).playback.pause is Some {
                Some(now)
            } else {
                None
            }),
            final(self).playback.speed == old(self).playback.speed,
            final(self).points == old(self).points,
            final(self).times == old(self).times,
            final(self).ranges == old(self).ranges,
            final(self).chart == old(self).chart,
    {
        self.playback.set_time(time, now);
    }

    /// Sets the playback time. Consumes self.
    pub fn time(self, time: Fixed, now: i64) -> (r: XyTimeData)
        requires
            time.raw() >= 0,
        ensures
            r.playback.start == Some(clamp_i64(now - time.raw()) as i64),
            r.playback.pause == (if self.playback.start is None || self.playback.pause is Some {
                Some(now)
            } else {
                None
            }),
            r.playback.speed == self.playback.speed,
            r.points == self.points,
            r.times == self.times,
            r.ranges == self.ranges,
            r.chart == self.chart,
    {
        let mut s = self;
        s.set_time(time, now);
        s
    }

    /// Sets the playback speed: 1 is normal speed, 2 double, 0.5 half.
    pub fn set_playback_speed(&mut self, speed: Fixed)
        ensures
            final(self).playback == (Playback { speed, ..old(self).playback }),
            final(self).points == old(self).points,
            final(self).times == old(self).times,
            final(self).ranges == old(self).ranges,
            final(self).chart == old(self).chart,
    {
        self.playback.speed = speed;
    }

    /// Sets the playback speed. Consumes self.
    pub fn playback_speed(self, speed: Fixed) -> (r: XyTimeData)
        ensures
            r.playback == (Playback { speed, ..self.playback }),
            r.points == self.points,
            r.times == self.times,
            r.ranges == self.ranges,
            r.chart == self.chart,
    {
        let mut s = self;
        s.set_playback_speed(speed);
        s
    }

    /// The playback speed: 1 is normal speed.
    pub fn get_playback_speed(&self) -> (r: Fixed)
        ensures
            r == self.playback.speed,
    {
        self.playback.speed
    }
}

} // verus!

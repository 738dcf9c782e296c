//! An animatable chart of a single series: time on the X axis, data on
//! the Y axis.
use vstd::prelude::*;

use crate::backend::{EguiBackend, Region};
use crate::chart::PointerInput;
use crate::fixed::{clamp_i64, Fixed};
use crate::playback::Playback;
use crate::style::{BackendColor, ShapeStyle};
use crate::chart::mouse_defaults;
use crate::charts::xytime::{
    default_axes_style, default_grid_style, default_line_style, default_subgrid_style, finished_at,
    frame_after, joined, stable_by_time, time_at, vertical_spec, XyTimeData,
};

verus! {

/// A series point as a chart point: the time is both its X and the time
/// at which it is shown, the data is its Y.
pub open spec fn as_xy(p: (Fixed, Fixed)) -> (Fixed, Fixed, Fixed) {
    (p.0, p.1, p.0)
}

/// Animatable chart with time on the X axis and data on the Y axis.
pub struct TimeData {
    pub chart: XyTimeData,
}

impl TimeData {
    /// Well-formed as its chart is.
    pub open spec fn wf(&self) -> bool {
        self.chart.wf()
    }

    /// A chart of `points`, each a time in seconds and a value, with `unit`
    /// the unit of the values.
    pub fn new(points: &[(Fixed, Fixed)], unit: &str, caption: &str) -> (r: TimeData)
        requires
            points@.len() > 0,
        ensures
            r.wf(),
            joined(r.chart.points@, r.chart.times@).to_multiset() == points@.map_values(|p| as_xy(p)).to_multiset(),
            stable_by_time(points@.map_values(|p| as_xy(p)), joined(r.chart.points@, r.chart.times@)),
            r.chart.playback == (Playback { start: None, pause: None, speed: Fixed::one_spec() }),
            r.chart.chart.data.x_unit@ == "seconds"@,
            r.chart.chart.data.y_unit@ == vertical_spec(unit@),
            r.chart.chart.data.caption@ == caption@,
            r.chart.chart.transform == crate::chart::default_transform(),
            r.chart.chart.mouse == mouse_defaults(true, true, true),
            r.chart.chart.data.points@ == r.chart.points@,
            r.chart.chart.data.range == r.chart.ranges@.last(),
            r.chart.chart.data.line_style == default_line_style(),
            r.chart.chart.data.grid_style == default_grid_style(),
            r.chart.chart.data.subgrid_style == default_subgrid_style(),
            r.chart.chart.data.axes_style == default_axes_style(),
            r.chart.chart.data.text_color == (BackendColor { alpha: Fixed::one_spec(), rgb: (0, 0, 0) }),
            r.chart.chart.data.background_color == (BackendColor { alpha: Fixed::one_spec(), rgb: (255, 255, 255) }),
            r.chart.chart.data.ratio == Fixed::one_spec(),
    {
        let mut xy: Vec<(Fixed, Fixed, Fixed)> = Vec::new();
        let mut i: usize = 0;
        while i < points.len()
            invariant
                i <= points@.len(),
                xy@ == points@.subrange(0, i as int).map_values(|p| as_xy(p)),
            decreases points@.len() - i,
        {
            let (time, data) = points[i];
            xy.push((time, data, time));
            assert(xy@ =~= points@.subrange(0, i + 1).map_values(|p| as_xy(p)));
            i = i + 1;
        }
        assert(points@.subrange(0, points@.len() as int) =~= points@);
        let chart = XyTimeData::new(xy.as_slice(), "seconds", unit, caption);
        TimeData { chart }
    }

    /// Sets the playback time to `time` seconds at `now`.
    pub fn set_time(&mut self, time: Fixed, now: i64)
        requires
            time.raw() >= 0,
        ensures
            final(self).chart.playback.start == Some(clamp_i64(now - time.raw()) as i64),
            final(self).chart.playback.pause == (if old(self).chart.playback.start is None
                || old(self).chart.playback.pause is Some {
                Some(now)
            } else {
                None
            }),
            final(self).chart.playback.speed == old(self).chart.playback.speed,
            final(self).chart.points == old(self).chart.points,
            final(self).chart.times == old(self).chart.times,
            final(self).chart.ranges == old(self).chart.ranges,
            final(self).chart.chart == old(self).chart.chart,
    {
        self.chart.set_time(time, now);
    }

    /// Sets the playback time. Consumes self.
    pub fn time(self, time: Fixed, now: i64) -> (r: TimeData)
        requires
            time.raw() >= 0,
        ensures
            r.chart.playback.start == Some(clamp_i64(now - time.raw()) as i64),
            r.chart.playback.speed == self.chart.playback.speed,
            r.chart.points == self.chart.points,
            r.chart.times == self.chart.times,
            r.chart.ranges == self.chart.ranges,
    {
        let mut s = self;
        s.set_time(time, now);
        s
    }

    /// Sets the playback speed: 1 is normal speed.
    pub fn set_playback_speed(&mut self, speed: Fixed)
        ensures
            final(self).chart.playback == (Playback { speed, ..old(self).chart.playback }),
            final(self).chart.points == old(self).chart.points,
            final(self).chart.times == old(self).chart.times,
            final(self).chart.ranges == old(self).chart.ranges,
    {
        self.chart.set_playback_speed(speed);
    }

    /// Sets the playback speed. Consumes self.
    pub fn playback_speed(self, speed: Fixed) -> (r: TimeData)
        ensures
            r.chart.playback == (Playback { speed, ..self.chart.playback }),
            r.chart.points == self.chart.points,
            r.chart.times == self.chart.times,
            r.chart.ranges == self.chart.ranges,
    {
        let mut s = self;
        s.set_playback_speed(speed);
        s
    }

    /// Sets the style of the plotted line.
    pub fn set_line_style(&mut self, line_style: ShapeStyle)
        ensures
            final(self).chart.chart.data.line_style == line_style,
            final(self).chart.playback == old(self).chart.playback,
            final(self).chart.points == old(self).chart.points,
            final(self).chart.times == old(self).chart.times,
            final(self).chart.ranges == old(self).chart.ranges,
    {
        self.chart.set_line_style(line_style);
    }

    /// Sets the style of the plotted line. Consumes self.
    pub fn line_style(self, line_style: ShapeStyle) -> (r: TimeData)
        ensures
            r.chart.chart.data.line_style == line_style,
            r.chart.playback == self.chart.playback,
            r.chart.points == self.chart.points,
            r.chart.times == self.chart.times,
            r.chart.ranges == self.chart.ranges,
    {
        let mut s = self;
        s.set_line_style(line_style);
        s
    }

    /// Sets the style of the grid.
    pub fn set_grid_style(&mut self, grid_style: ShapeStyle)
        ensures
            final(self).chart.chart.data.grid_style == grid_style,
            final(self).chart.playback == old(self).chart.playback,
            final(self).chart.points == old(self).chart.points,
            final(self).chart.times == old(self).chart.times,
            final(self).chart.ranges == old(self).chart.ranges,
    {
        self.chart.set_grid_style(grid_style);
    }

    /// Sets the style of the grid. Consumes self.
    pub fn grid_style(self, grid_style: ShapeStyle) -> (r: TimeData)
        ensures
            r.chart.chart.data.grid_style == grid_style,
            r.chart.playback == self.chart.playback,
            r.chart.points == self.chart.points,
            r.chart.times == self.chart.times,
            r.chart.ranges == self.chart.ranges,
    {
        let mut s = self;
        s.set_grid_style(grid_style);
        s
    }

    /// Sets the style of the subgrid.
    pub fn set_subgrid_style(&mut self, subgrid_style: ShapeStyle)
        ensures
            final(self).chart.chart.data.subgrid_style == subgrid_style,
            final(self).chart.playback == old(self).chart.playback,
            final(self).chart.points == old(self).chart.points,
            final(self).chart.times == old(self).chart.times,
            final(self).chart.ranges == old(self).chart.ranges,
    {
        self.chart.set_subgrid_style(subgrid_style);
    }

    /// Sets the style of the subgrid. Consumes self.
    pub fn subgrid_style(self, subgrid_style: ShapeStyle) -> (r: TimeData)
        ensures
            r.chart.chart.data.subgrid_style == subgrid_style,
            r.chart.playback == self.chart.playback,
            r.chart.points == self.chart.points,
            r.chart.times == self.chart.times,
            r.chart.ranges == self.chart.ranges,
    {
        let mut s = self;
        s.set_subgrid_style(subgrid_style);
        s
    }

    /// Sets the style of the axes.
    pub fn set_axes_style(&mut self, axes_style: ShapeStyle)
        ensures
            final(self).chart.chart.data.axes_style == axes_style,
            final(self).chart.playback == old(self).chart.playback,
            final(self).chart.points == old(self).chart.points,
            final(self).chart.times == old(self).chart.times,
            final(self).chart.ranges == old(self).chart.ranges,
    {
        self.chart.set_axes_style(axes_style);
    }

    /// Sets the style of the axes. Consumes self.
    pub fn axes_style(self, axes_style: ShapeStyle) -> (r: TimeData)
        ensures
            r.chart.chart.data.axes_style == axes_style,
            r.chart.playback == self.chart.playback,
            r.chart.points == self.chart.points,
            r.chart.times == self.chart.times,
            r.chart.ranges == self.chart.ranges,
    {
        let mut s = self;
        s.set_axes_style(axes_style);
        s
    }

    /// Sets the color of the text.
    pub fn set_text_color(&mut self, text_color: BackendColor)
        ensures
            final(self).chart.chart.data.text_color == text_color,
            final(self).chart.playback == old(self).chart.playback,
            final(self).chart.points == old(self).chart.points,
            final(self).chart.times == old(self).chart.times,
            final(self).chart.ranges == old(self).chart.ranges,
    {
        self.chart.set_text_color(text_color);
    }

    /// Sets the color of the text. Consumes self.
    pub fn text_color(self, text_color: BackendColor) -> (r: TimeData)
        ensures
            r.chart.chart.data.text_color == text_color,
            r.chart.playback == self.chart.playback,
            r.chart.points == self.chart.points,
            r.chart.times == self.chart.times,
            r.chart.ranges == self.chart.ranges,
    {
        let mut s = self;
        s.set_text_color(text_color);
        s
    }

    /// Sets the background color.
    pub fn set_background_color(&mut self, background_color: BackendColor)
        ensures
            final(self).chart.chart.data.background_color == background_color,
            final(self).chart.playback == old(self).chart.playback,
            final(self).chart.points == old(self).chart.points,
            final(self).chart.times == old(self).chart.times,
            final(self).chart.ranges == old(self).chart.ranges,
    {
        self.chart.set_background_color(background_color);
    }

    /// Sets the background color. Consumes self.
    pub fn background_color(self, background_color: BackendColor) -> (r: TimeData)
        ensures
            r.chart.chart.data.background_color == background_color,
            r.chart.playback == self.chart.playback,
            r.chart.points == self.chart.points,
            r.chart.times == self.chart.times,
            r.chart.ranges == self.chart.ranges,
    {
        let mut s = self;
        s.set_background_color(background_color);
        s
    }

    /// Sets how many Y units one X unit is drawn as.
    pub fn set_ratio(&mut self, ratio: Fixed)
        ensures
            final(self).chart.chart.data.ratio == ratio,
            final(self).chart.playback == old(self).chart.playback,
            final(self).chart.points == old(self).chart.points,
            final(self).chart.times == old(self).chart.times,
            final(self).chart.ranges == old(self).chart.ranges,
    {
        self.chart.set_ratio(ratio);
    }

    /// Sets how many Y units one X unit is drawn as. Consumes self.
    pub fn ratio(self, ratio: Fixed) -> (r: TimeData)
        ensures
            r.chart.chart.data.ratio == ratio,
            r.chart.playback == self.chart.playback,
            r.chart.points == self.chart.points,
            r.chart.times == self.chart.times,
            r.chart.ranges == self.chart.ranges,
    {
        let mut s = self;
        s.set_ratio(ratio);
        s
    }

    /// Moves playback on to `now` and gives the surface to draw this frame
    /// on, as the chart's own `draw` does.
    pub fn draw(&mut self, input: &PointerInput, region: Region, now: i64) -> (r: EguiBackend)
        requires
            old(self).wf(),
        ensures
            final(self).wf(),
            frame_after(old(self).chart, final(self).chart, *input, region, now as int, r),
    {
        self.chart.draw(input, region, now)
    }

    /// Starts playback at `now`.
    pub fn start_playback(&mut self, now: i64)
        ensures
            final(self).chart.playback == (Playback { start: Some(now), pause: None, ..old(self).chart.playback }),
            final(self).chart.points == old(self).chart.points,
            final(self).chart.times == old(self).chart.times,
            final(self).chart.ranges == old(self).chart.ranges,
            final(self).chart.chart == old(self).chart.chart,
    {
        self.chart.start_playback(now);
    }

    /// Stops playback.
    pub fn stop_playback(&mut self)
        ensures
            final(self).chart.playback == (Playback { start: None, pause: None, ..old(self).chart.playback }),
            final(self).chart.points == old(self).chart.points,
            final(self).chart.times == old(self).chart.times,
            final(self).chart.ranges == old(self).chart.ranges,
            final(self).chart.chart == old(self).chart.chart,
    {
        self.chart.stop_playback();
    }

    /// Starts, pauses or resumes playback at `now`.
    pub fn toggle_playback(&mut self, now: i64)
        ensures
            final(self).chart.playback == crate::playback::toggled(old(self).chart.playback, now),
            final(self).chart.points == old(self).chart.points,
            final(self).chart.times == old(self).chart.times,
            final(self).chart.ranges == old(self).chart.ranges,
            final(self).chart.chart == old(self).chart.chart,
    {
        self.chart.toggle_playback(now);
    }

    /// Whether playback runs.
    pub fn is_playing(&self) -> (r: bool)
        ensures
            r == self.chart.playback.playing(),
    {
        self.chart.is_playing()
    }

    /// The time of the first point.
    pub fn start_time(&self) -> (r: Fixed)
        requires
            self.wf(),
        ensures
            r.raw() == self.chart.first_time(),
    {
        self.chart.start_time()
    }

    /// The playback time at `now`, as the chart's own `current_time` gives it.
    pub fn current_time(&mut self, now: i64) -> (r: Fixed)
        requires
            old(self).wf(),
        ensures
            final(self).wf(),
            final(self).chart.points == old(self).chart.points,
            final(self).chart.times == old(self).chart.times,
            final(self).chart.ranges == old(self).chart.ranges,
            final(self).chart.chart == old(self).chart.chart,
            final(self).chart.playback.pause == old(self).chart.playback.pause,
            final(self).chart.playback.speed == old(self).chart.playback.speed,
            old(self).chart.playback.start is None ==> r.raw() == old(self).chart.first_time()
                && final(self).chart.playback == old(self).chart.playback,
            old(self).chart.playback.start is Some ==> {
                let e = crate::playback::elapsed_spec(old(self).chart.playback, now as int);
                let (f, l, v) = (old(self).chart.first_time(), old(self).chart.last_time(), old(self).chart.playback.speed.raw());
                &&& r.raw() == time_at(f, l, v, e)
                &&& final(self).chart.playback.start == if finished_at(f, l, v, e) {
                    None
                } else {
                    old(self).chart.playback.start
                }
            },
    {
        self.chart.current_time(now)
    }

    /// The time of the last point.
    pub fn end_time(&self) -> (r: Fixed)
        requires
            self.wf(),
        ensures
            r.raw() == self.chart.last_time(),
    {
        self.chart.end_time()
    }

    /// The playback speed.
    pub fn get_playback_speed(&self) -> (r: Fixed)
        ensures
            r == self.chart.playback.speed,
    {
        self.chart.get_playback_speed()
    }
}

} // verus!

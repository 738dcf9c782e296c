//! Geometry and styles of a drawing surface laid over a region of the GUI.
//!
//! Every primitive that a chart draws is turned into a [`Shape`] whose
//! points have been through the surface's point transform: zoom about the
//! region's center, then an unscaled pan, then the region's top-left corner.
use vstd::prelude::*;

use crate::fixed::{div_trunc, Fixed, ONE};
use crate::triangulate::{is_triangulation, strictly_convex, triangulate};
use crate::style::{
    alpha_byte, painter_family_spec, rotate_n, Align2, BackendColor, BackendStyle,
    ChartFontFamily, EguiBackendColor, FontTransform, HPos, PainterFontFamily, Stroke, VPos,
};

verus! {

/// Raw units of a [`ScreenPos`] coordinate in one pixel.
///
/// A transformed point is exact: it is a sum of products of pixel
/// coordinates and millionths, halved where it meets a region's center.
pub const SUBPIXELS: i128 = 2_000_000_000_000;

/// Error of the drawing surface. The painter itself never fails, so this is
/// only a marker.
#[derive(Debug, Clone, Copy, PartialEq, Eq, Structural)]
pub struct EguiBackendError;

/// A rectangle of the GUI, in pixels: its top-left corner and its size.
#[derive(Debug, Clone, Copy, PartialEq, Eq, Structural)]
pub struct Region {
    pub min_x: Fixed,
    pub min_y: Fixed,
    pub width: Fixed,
    pub height: Fixed,
}

/// A point on screen in units of `1 / SUBPIXELS` of a pixel.
#[derive(Debug, Clone, Copy, PartialEq, Eq, Structural)]
pub struct ScreenPos {
    pub x: i128,
    pub y: i128,
}

/// One axis of the point transform, in `1 / SUBPIXELS` pixel units.
///
/// With `m` the region's start, `w` its extent, `o` the pan offset, `p` the
/// point and `s` the scale (both of the last in their own units), the
/// result is `m + o + w / 2 + (p - w / 2) * s`.
pub open spec fn transform_axis(min: int, size: int, offset: int, p: int, scale: int) -> int {
    2 * ONE * (min + offset * ONE) + ONE * size + (2 * p * ONE - size) * scale
}

/// The region's center on one axis, in `1 / SUBPIXELS` pixel units, with
/// the pan offset applied.
pub open spec fn center_axis(min: int, size: int, offset: int) -> int {
    2 * ONE * (min + offset * ONE) + ONE * size
}

/// A length in millionths of a pixel, in `1 / SUBPIXELS` pixel units.
pub open spec fn micro_pixels(m: int) -> int {
    m * 2 * ONE
}

/// Squared distance of a transformed point from the region's center.
pub open spec fn dist2_from_center(b: EguiBackend, p: (i32, i32), scale: int) -> int {
    let dx = transform_axis(b.region.min_x.raw(), b.region.width.raw(), b.x as int, p.0 as int, scale)
        - center_axis(b.region.min_x.raw(), b.region.width.raw(), b.x as int);
    let dy = transform_axis(b.region.min_y.raw(), b.region.height.raw(), b.y as int, p.1 as int, scale)
        - center_axis(b.region.min_y.raw(), b.region.height.raw(), b.y as int);
    dx * dx + dy * dy
}

/// Whether a point sits on the region's center.
pub open spec fn at_center(b: EguiBackend, p: (i32, i32)) -> bool {
    2 * p.0 * ONE == b.region.width.raw() && 2 * p.1 * ONE == b.region.height.raw()
}

/// With no pan and a scale of one, a point moves only by the region's
/// top-left corner.
pub proof fn lemma_identity_transform(b: EguiBackend, p: (i32, i32))
    requires
        b.x == 0,
        b.y == 0,
        b.scale.raw() == ONE,
    ensures
        transform_axis(b.region.min_x.raw(), b.region.width.raw(), b.x as int, p.0 as int, b.scale.raw())
            == pixels(p.0 as int) + micro_pixels(b.region.min_x.raw()),
        transform_axis(b.region.min_y.raw(), b.region.height.raw(), b.y as int, p.1 as int, b.scale.raw())
            == pixels(p.1 as int) + micro_pixels(b.region.min_y.raw()),
{
    lemma_identity_axis(b.region.min_x.raw(), b.region.width.raw(), p.0 as int);
    lemma_identity_axis(b.region.min_y.raw(), b.region.height.raw(), p.1 as int);
}

/// One axis of the identity transform.
proof fn lemma_identity_axis(min: int, size: int, p: int)
    ensures
        transform_axis(min, size, 0, p, ONE as int) == pixels(p) + micro_pixels(min),
{
    assert(transform_axis(min, size, 0, p, 1_000_000) == 2_000_000 * min + 1_000_000 * size + (
    2_000_000 * p - size) * 1_000_000);
    assert((2_000_000 * p - size) * 1_000_000 == 2_000_000_000_000 * p - 1_000_000 * size);
    assert(pixels(p) == p * 2_000_000_000_000);
    assert(micro_pixels(min) == min * 2 * 1_000_000);
}

/// Zoom is about the region's center: the center stays where it is at
/// every scale, and any other point moves strictly farther from it as the
/// scale grows and strictly closer as it shrinks.
pub proof fn lemma_zoom_about_center(b: EguiBackend, p: (i32, i32), s1: int, s2: int)
    requires
        0 < s1,
        0 < s2,
    ensures
        at_center(b, p) ==> dist2_from_center(b, p, s1) == 0,
        !at_center(b, p) && s1 < s2 ==> dist2_from_center(b, p, s1) < dist2_from_center(b, p, s2),
        !at_center(b, p) && s2 < s1 ==> dist2_from_center(b, p, s2) < dist2_from_center(b, p, s1),
{
    let ex = 2 * p.0 * ONE - b.region.width.raw();
    let ey = 2 * p.1 * ONE - b.region.height.raw();
    let d = ex * ex + ey * ey;
    assert(dist2_from_center(b, p, s1) == d * (s1 * s1)) by (nonlinear_arith)
        requires
            dist2_from_center(b, p, s1) == (ex * s1) * (ex * s1) + (ey * s1) * (ey * s1),
            d == ex * ex + ey * ey,
    ;
    assert(dist2_from_center(b, p, s2) == d * (s2 * s2)) by (nonlinear_arith)
        requires
            dist2_from_center(b, p, s2) == (ex * s2) * (ex * s2) + (ey * s2) * (ey * s2),
            d == ex * ex + ey * ey,
    ;
    if at_center(b, p) {
        assert(ex == 0 && ey == 0);
        assert(d * (s1 * s1) == 0) by (nonlinear_arith)
            requires
                d == ex * ex + ey * ey,
                ex == 0,
                ey == 0,
        ;
    }
    if !at_center(b, p) {
        assert(d > 0) by (nonlinear_arith)
            requires
                ex != 0 || ey != 0,
                d == ex * ex + ey * ey,
        ;
        if s1 < s2 {
            assert(d * (s1 * s1) < d * (s2 * s2)) by (nonlinear_arith)
                requires
                    d > 0,
                    0 < s1 < s2,
            ;
        }
        if s2 < s1 {
            assert(d * (s2 * s2) < d * (s1 * s1)) by (nonlinear_arith)
                requires
                    d > 0,
                    0 < s2 < s1,
            ;
        }
    }
}

/// A whole pixel count in `1 / SUBPIXELS` pixel units.
pub open spec fn pixels(p: int) -> int {
    p * SUBPIXELS
}

/// Clamps a mathematical integer into the range of `u32`.
pub open spec fn clamp_u32(x: int) -> int {
    if x < 0 {
        0
    } else if x > u32::MAX {
        u32::MAX as int
    } else {
        x
    }
}

/// Clamps a mathematical integer into the range of `u8`.
pub open spec fn clamp_u8(x: int) -> int {
    if x < 0 {
        0
    } else if x > 255 {
        255
    } else {
        x
    }
}

/// The drawing surface: the region it covers, a pan offset in whole pixels
/// and a zoom factor.
#[derive(Debug, Clone, Copy, PartialEq, Eq, Structural)]
pub struct EguiBackend {
    pub region: Region,
    pub x: i32,
    pub y: i32,
    pub scale: Fixed,
}

/// What `a * b` is bounded by when `|a| <= ba` and `|b| <= bb`.
proof fn lemma_mul_bound(a: int, b: int, ba: int, bb: int)
    requires
        -ba <= a <= ba,
        -bb <= b <= bb,
    ensures
        -(ba * bb) <= a * b <= ba * bb,
{
    assert(-(ba * bb) <= a * b <= ba * bb) by (nonlinear_arith)
        requires
            -ba <= a <= ba,
            -bb <= b <= bb,
    ;
}

/// A bound on every transformed coordinate.
pub const SCREEN_BOUND: i128 = 0x4100_0000_0000_0000_0000_0000_0000_0000;

/// One axis of the point transform, computed exactly.
fn transform_axis_exec(min: Fixed, size: Fixed, offset: i32, p: i32, scale: Fixed) -> (r: i128)
    ensures
        r == transform_axis(min.raw(), size.raw(), offset as int, p as int, scale.raw()),
        -SCREEN_BOUND <= r <= SCREEN_BOUND,
{
    let one: i128 = ONE as i128;
    let d: i128 = 2 * (p as i128) * one - size.micros as i128;
    proof {
        lemma_mul_bound(
            d as int,
            scale.raw(),
            0x8020_0000_0000_0000,
            0x8000_0000_0000_0000,
        );
        lemma_mul_bound(min.raw() + offset * ONE, 2 * ONE, 0x8100_0000_0000_0000, 2_000_000);
        lemma_mul_bound(size.raw(), ONE as int, 0x8000_0000_0000_0000, 1_000_000);
    }
    let base: i128 = 2 * one * (min.micros as i128 + offset as i128 * one);
    let half: i128 = one * size.micros as i128;
    let scaled: i128 = d * scale.micros as i128;
    base + half + scaled
}

impl EguiBackend {
    /// A surface over `region`, with no pan and no zoom.
    pub fn new(region: Region) -> (r: EguiBackend)
        ensures
            r.region == region,
            r.x == 0,
            r.y == 0,
            r.scale.raw() == ONE,
    {
        EguiBackend { region, x: 0, y: 0, scale: Fixed::one() }
    }

    /// Where `point` lands on screen.
    pub open spec fn transform_spec(&self, point: (i32, i32)) -> ScreenPos {
        ScreenPos {
            x: transform_axis(
                self.region.min_x.raw(),
                self.region.width.raw(),
                self.x as int,
                point.0 as int,
                self.scale.raw(),
            ) as i128,
            y: transform_axis(
                self.region.min_y.raw(),
                self.region.height.raw(),
                self.y as int,
                point.1 as int,
                self.scale.raw(),
            ) as i128,
        }
    }

    /// Translates `point` into a frame centered on the region, scales it,
    /// translates it back, then adds the pan offset and the region's corner.
    pub fn point_transform(&self, point: (i32, i32)) -> (r: ScreenPos)
        ensures
            r.x == transform_axis(
                self.region.min_x.raw(),
                self.region.width.raw(),
                self.x as int,
                point.0 as int,
                self.scale.raw(),
            ),
            r.y == transform_axis(
                self.region.min_y.raw(),
                self.region.height.raw(),
                self.y as int,
                point.1 as int,
                self.scale.raw(),
            ),
            r == self.transform_spec(point),
            -SCREEN_BOUND <= r.x <= SCREEN_BOUND,
            -SCREEN_BOUND <= r.y <= SCREEN_BOUND,
    {
        let x = transform_axis_exec(self.region.min_x, self.region.width, self.x, point.0, self.scale);
        let y = transform_axis_exec(self.region.min_y, self.region.height, self.y, point.1, self.scale);
        ScreenPos { x, y }
    }

    /// Sets the pan offset.
    pub fn set_offset(&mut self, offset: (i32, i32))
        ensures
            *final(self) == (EguiBackend { x: offset.0, y: offset.1, ..*old(self) }),
    {
        self.x = offset.0;
        self.y = offset.1;
    }

    /// Sets the pan offset. Consumes self.
    pub fn offset(self, offset: (i32, i32)) -> (r: EguiBackend)
        ensures
            r == (EguiBackend { x: offset.0, y: offset.1, ..self }),
    {
        let mut s = self;
        s.set_offset(offset);
        s
    }

    /// Sets the zoom factor.
    pub fn set_scale(&mut self, scale: Fixed)
        ensures
            *final(self) == (EguiBackend { scale, ..*old(self) }),
    {
        self.scale = scale;
    }

    /// Sets the zoom factor. Consumes self.
    pub fn scale(self, scale: Fixed) -> (r: EguiBackend)
        ensures
            r == (EguiBackend { scale, ..self }),
    {
        let mut s = self;
        s.set_scale(scale);
        s
    }

    /// The region's size in whole pixels, rounded toward zero.
    pub fn get_size(&self) -> (r: (u32, u32))
        ensures
            r.0 == clamp_u32(div_trunc(self.region.width.raw(), ONE as int)),
            r.1 == clamp_u32(div_trunc(self.region.height.raw(), ONE as int)),
    {
        (whole_pixels(self.region.width), whole_pixels(self.region.height))
    }
}

/// A length in whole pixels, rounded toward zero and saturated into `u32`.
fn whole_pixels(v: Fixed) -> (r: u32)
    ensures
        r == clamp_u32(div_trunc(v.raw(), ONE as int)),
{
    let w: i64 = v.trunc();
    if w < 0 {
        0
    } else if w > u32::MAX as i64 {
        u32::MAX
    } else {
        w as u32
    }
}

/// A text style as the chart gives it.
#[derive(Debug, Clone)]
pub struct TextStyle {
    /// Font size in pixels.
    pub size: Fixed,
    pub family: ChartFontFamily,
    pub color: BackendColor,
    pub transform: FontTransform,
    pub h_pos: HPos,
    pub v_pos: VPos,
}

/// A text to lay out without wrapping and to paint: where its anchor sits,
/// its font, its color, how far it is turned and which of its nine anchors
/// sits at `pos`.
#[derive(Debug, Clone)]
pub struct TextShape {
    pub pos: ScreenPos,
    pub size: Fixed,
    pub family: PainterFontFamily,
    pub color: EguiBackendColor,
    pub quarter_turns: u32,
    pub anchor: Align2,
}

/// A shape for the painter, in screen coordinates.
#[derive(Debug, Clone)]
pub enum Shape {
    /// A straight segment.
    LineSegment { from: ScreenPos, to: ScreenPos, stroke: Stroke },
    /// An axis-aligned rectangle with square corners.
    Rect { min: ScreenPos, max: ScreenPos, fill: EguiBackendColor, stroke: Stroke },
    /// A circle; its radius is in `1 / SUBPIXELS` pixel units.
    Circle { center: ScreenPos, radius: i128, fill: EguiBackendColor, stroke: Stroke },
    /// An open polyline.
    Path { points: Vec<ScreenPos>, stroke: Stroke },
    /// Filled triangles over shared vertices.
    Mesh { points: Vec<ScreenPos>, triangles: Vec<(usize, usize, usize)>, color: EguiBackendColor },
    /// A text.
    Text(TextShape),
}

/// The painter's color of a chart style.
pub open spec fn color_of(c: BackendColor) -> EguiBackendColor {
    EguiBackendColor { r: c.rgb.0, g: c.rgb.1, b: c.rgb.2, a: alpha_byte(c.alpha.raw()) as u8 }
}

/// The painter's stroke of a chart style.
pub open spec fn stroke_of(s: BackendStyle) -> Stroke {
    Stroke { width: s.stroke_width, color: color_of(s.color) }
}

/// The no-stroke.
pub open spec fn no_stroke() -> Stroke {
    Stroke { width: 0, color: EguiBackendColor { r: 0, g: 0, b: 0, a: 0 } }
}

/// The fully transparent color.
pub open spec fn transparent() -> EguiBackendColor {
    EguiBackendColor { r: 0, g: 0, b: 0, a: 0 }
}

/// `|s|` for a scale in millionths.
pub open spec fn abs_int(s: int) -> int {
    if s < 0 {
        -s
    } else {
        s
    }
}

impl EguiBackend {
    /// Begins a drawing pass; the painter needs no preparation.
    pub fn ensure_prepared(&mut self) -> (r: Result<(), EguiBackendError>)
        ensures
            r is Ok,
            *final(self) == *old(self),
    {
        Ok(())
    }

    /// Ends a drawing pass; the painter needs no flush.
    pub fn present(&mut self) -> (r: Result<(), EguiBackendError>)
        ensures
            r is Ok,
            *final(self) == *old(self),
    {
        Ok(())
    }

    /// A single pixel: a segment one pixel long on each axis from the
    /// transformed point, one pixel wide.
    pub fn draw_pixel(&self, point: (i32, i32), color: BackendColor) -> (r: Shape)
        ensures
            r == (Shape::LineSegment {
                from: self.transform_spec(point),
                to: ScreenPos {
                    x: (self.transform_spec(point).x + SUBPIXELS) as i128,
                    y: (self.transform_spec(point).y + SUBPIXELS) as i128,
                },
                stroke: Stroke { width: 1, color: color_of(color) },
            }),
    {
        let p0 = self.point_transform(point);
        let p1 = ScreenPos { x: p0.x + SUBPIXELS, y: p0.y + SUBPIXELS };
        Shape::LineSegment {
            from: p0,
            to: p1,
            stroke: Stroke { width: 1, color: EguiBackendColor::from_backend(color) },
        }
    }

    /// A segment between the two transformed end points.
    pub fn draw_line(&self, from: (i32, i32), to: (i32, i32), style: &BackendStyle) -> (r: Shape)
        ensures
            r == (Shape::LineSegment {
                from: self.transform_spec(from),
                to: self.transform_spec(to),
                stroke: stroke_of(*style),
            }),
    {
        let p0 = self.point_transform(from);
        let p1 = self.point_transform(to);
        Shape::LineSegment { from: p0, to: p1, stroke: style.stroke() }
    }

    /// A rectangle between the two transformed corners: filled with the
    /// style's color and no stroke, or stroked and not filled.
    pub fn draw_rect(
        &self,
        upper_left: (i32, i32),
        bottom_right: (i32, i32),
        style: &BackendStyle,
        fill: bool,
    ) -> (r: Shape)
        ensures
            r == (Shape::Rect {
                min: self.transform_spec(upper_left),
                max: self.transform_spec(bottom_right),
                fill: if fill { color_of(style.color) } else { transparent() },
                stroke: if fill { no_stroke() } else { stroke_of(*style) },
            }),
    {
        let p0 = self.point_transform(upper_left);
        let p1 = self.point_transform(bottom_right);
        if fill {
            Shape::Rect {
                min: p0,
                max: p1,
                fill: EguiBackendColor::from_backend(style.color),
                stroke: Stroke::none(),
            }
        } else {
            Shape::Rect {
                min: p0,
                max: p1,
                fill: EguiBackendColor::transparent(),
                stroke: style.stroke(),
            }
        }
    }

    /// A circle about the transformed center; its radius is scaled by the
    /// size of the zoom factor and not moved.
    pub fn draw_circle(&self, center: (i32, i32), radius: u32, style: &BackendStyle, fill: bool) -> (r: Shape)
        ensures
            r == (Shape::Circle {
                center: self.transform_spec(center),
                radius: (pixels(radius as int) * abs_int(self.scale.raw()) / ONE as int) as i128,
                fill: if fill { color_of(style.color) } else { transparent() },
                stroke: if fill { no_stroke() } else { stroke_of(*style) },
            }),
    {
        let c = self.point_transform(center);
        let s: i128 = if self.scale.micros < 0 {
            -(self.scale.micros as i128)
        } else {
            self.scale.micros as i128
        };
        proof {
            lemma_mul_bound(radius as int, s as int, 0x1_0000_0000, 0x8000_0000_0000_0000);
            assert(pixels(radius as int) * abs_int(self.scale.raw()) / ONE as int == radius as int * s * 2 * ONE)
                by (nonlinear_arith)
                requires
                    s == abs_int(self.scale.raw()),
            ;
        }
        let rad: i128 = (radius as i128) * s * 2 * (ONE as i128);
        if fill {
            Shape::Circle {
                center: c,
                radius: rad,
                fill: EguiBackendColor::from_backend(style.color),
                stroke: Stroke::none(),
            }
        } else {
            Shape::Circle {
                center: c,
                radius: rad,
                fill: EguiBackendColor::transparent(),
                stroke: style.stroke(),
            }
        }
    }

    /// Every point of `path`, transformed, in order.
    pub fn transform_all(&self, path: &Vec<(i32, i32)>) -> (r: Vec<ScreenPos>)
        ensures
            r@.len() == path@.len(),
            forall|i: int| 0 <= i < path@.len() ==> r@[i] == self.transform_spec(#[trigger] path@[i]),
    {
        let mut out: Vec<ScreenPos> = Vec::new();
        let mut i: usize = 0;
        while i < path.len()
            invariant
                i <= path@.len(),
                out@.len() == i,
                forall|j: int| 0 <= j < i ==> out@[j] == self.transform_spec(#[trigger] path@[j]),
            decreases path@.len() - i,
        {
            out.push(self.point_transform(path[i]));
            i = i + 1;
        }
        out
    }

    /// An open polyline through the transformed points.
    pub fn draw_path(&self, path: &Vec<(i32, i32)>, style: &BackendStyle) -> (r: Shape)
        ensures
            r matches Shape::Path { points, stroke } && stroke == stroke_of(*style)
                && points@.len() == path@.len()
                && forall|i: int| 0 <= i < path@.len() ==> points@[i] == self.transform_spec(#[trigger] path@[i]),
    {
        Shape::Path { points: self.transform_all(path), stroke: style.stroke() }
    }

    /// The polygon through the transformed vertices, filled with the
    /// style's color: cut into triangles first, as it need not be convex. A
    /// strictly convex polygon is always filled; a degenerate polygon, which
    /// cannot be cut, is an error.
    pub fn fill_polygon(&self, vert: &Vec<(i32, i32)>, style: &BackendStyle) -> (r: Result<Shape, EguiBackendError>)
        ensures
            vert@.len() < 3 ==> r is Ok,
            vert@.len() >= 3 && strictly_convex(vert@) ==> r is Ok,
            r is Err ==> vert@.len() >= 3 && !strictly_convex(vert@),
            r matches Ok(shape) ==> shape matches Shape::Mesh { points, triangles, color }
                && color == color_of(style.color)
                && is_triangulation(vert@, triangles@)
                && points@.len() == vert@.len()
                && forall|i: int| 0 <= i < vert@.len() ==> points@[i] == self.transform_spec(#[trigger] vert@[i]),
    {
        match triangulate(vert) {
            Ok(triangles) => Ok(
                Shape::Mesh {
                    points: self.transform_all(vert),
                    triangles,
                    color: EguiBackendColor::from_backend(style.color),
                },
            ),
            Err(e) => Err(e),
        }
    }

    /// A text at the transformed position: the chart's family mapped onto
    /// the painter's, the anchor turned as often as the text is.
    pub fn draw_text(&self, style: &TextStyle, pos: (i32, i32)) -> (r: TextShape)
        ensures
            r.pos == self.transform_spec(pos),
            r.size == style.size,
            r.family == painter_family_spec(style.family),
            r.color == color_of(style.color),
            r.quarter_turns == style.transform.turns(),
            r.anchor == rotate_n(
                Align2 {
                    x: match style.h_pos {
                        HPos::Left => crate::style::Align::Min,
                        HPos::Center => crate::style::Align::Center,
                        HPos::Right => crate::style::Align::Max,
                    },
                    y: match style.v_pos {
                        VPos::Top => crate::style::Align::Min,
                        VPos::Center => crate::style::Align::Center,
                        VPos::Bottom => crate::style::Align::Max,
                    },
                },
                style.transform.turns(),
            ),
    {
        let p = self.point_transform(pos);
        let turns = style.transform.quarter_turns();
        let anchor = Align2::from_pos(style.h_pos, style.v_pos).rotated(turns);
        TextShape {
            pos: p,
            size: style.size,
            family: style.family.to_painter(),
            color: EguiBackendColor::from_backend(style.color),
            quarter_turns: turns,
            anchor,
        }
    }
}

} // verus!

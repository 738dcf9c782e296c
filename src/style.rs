//! Colors, strokes, fonts and text anchors, as the chart describes them and
//! as the painter takes them.
use vstd::prelude::*;

use crate::backend::clamp_u8;
use crate::fixed::{div_trunc, div_trunc_exec, Fixed, ONE};

verus! {

/// A color as the chart gives it: an opacity between 0 and 1 and the three
/// channels.
#[derive(Debug, Clone, Copy, PartialEq, Eq)]
pub struct BackendColor {
    pub alpha: Fixed,
    pub rgb: (u8, u8, u8),
}

/// A color as the painter takes it: four 8-bit channels, not premultiplied.
#[derive(Debug, Clone, Copy, PartialEq, Eq, Structural)]
pub struct EguiBackendColor {
    pub r: u8,
    pub g: u8,
    pub b: u8,
    pub a: u8,
}

/// The painter's alpha channel for an opacity: `opacity * 255`, rounded
/// toward zero and saturated into a byte.
pub open spec fn alpha_byte(alpha: int) -> int {
    clamp_u8(div_trunc(alpha * 255, ONE as int))
}

impl EguiBackendColor {
    /// The fully transparent color.
    pub fn transparent() -> (r: EguiBackendColor)
        ensures
            r == (EguiBackendColor { r: 0, g: 0, b: 0, a: 0 }),
    {
        EguiBackendColor { r: 0, g: 0, b: 0, a: 0 }
    }

    /// The painter's form of a chart color: the channels are kept, the
    /// opacity is scaled to a byte.
    pub fn from_backend(c: BackendColor) -> (r: EguiBackendColor)
        ensures
            r.r == c.rgb.0,
            r.g == c.rgb.1,
            r.b == c.rgb.2,
            r.a == alpha_byte(c.alpha.raw()),
    {
        let scaled: i128 = div_trunc_exec(c.alpha.micros as i128 * 255, ONE as i128);
        let a: u8 = if scaled < 0 {
            0
        } else if scaled > 255 {
            255
        } else {
            scaled as u8
        };
        EguiBackendColor { r: c.rgb.0, g: c.rgb.1, b: c.rgb.2, a }
    }
}

/// A stroke: its width in whole pixels and its color.
#[derive(Debug, Clone, Copy, PartialEq, Eq, Structural)]
pub struct Stroke {
    pub width: u32,
    pub color: EguiBackendColor,
}

impl Stroke {
    /// No stroke at all.
    pub fn none() -> (r: Stroke)
        ensures
            r.width == 0,
            r.color == (EguiBackendColor { r: 0, g: 0, b: 0, a: 0 }),
    {
        Stroke { width: 0, color: EguiBackendColor::transparent() }
    }
}

/// The style of a drawn shape as the chart gives it.
#[derive(Debug, Clone, Copy, PartialEq, Eq)]
pub struct BackendStyle {
    pub color: BackendColor,
    pub stroke_width: u32,
}

impl BackendStyle {
    /// The stroke that draws this style.
    pub fn stroke(&self) -> (r: Stroke)
        ensures
            r.width == self.stroke_width,
            r.color.r == self.color.rgb.0,
            r.color.g == self.color.rgb.1,
            r.color.b == self.color.rgb.2,
            r.color.a == alpha_byte(self.color.alpha.raw()),
    {
        Stroke { width: self.stroke_width, color: EguiBackendColor::from_backend(self.color) }
    }
}

/// The style of a series, a grid or axes: color, whether shapes are
/// filled, and stroke width in pixels.
#[derive(Debug, Clone, Copy, PartialEq, Eq)]
pub struct ShapeStyle {
    pub color: BackendColor,
    pub filled: bool,
    pub stroke_width: u32,
}

impl BackendColor {
    /// An opaque color.
    pub fn opaque(r: u8, g: u8, b: u8) -> (c: BackendColor)
        ensures
            c.alpha == Fixed::one_spec(),
            c.rgb == (r, g, b),
    {
        BackendColor { alpha: Fixed::one(), rgb: (r, g, b) }
    }
}

/// A font family as the chart names it.
#[derive(Debug, Clone, PartialEq, Eq)]
pub enum ChartFontFamily {
    Serif,
    SansSerif,
    Monospace,
    Name(String),
}

/// A font family as the painter knows it.
#[derive(Debug, Clone, PartialEq, Eq)]
pub enum PainterFontFamily {
    Proportional,
    Monospace,
    Name(String),
}

/// Serif and sans-serif become the proportional family; monospace stays
/// monospace; a named family keeps its name.
pub open spec fn painter_family_spec(f: ChartFontFamily) -> PainterFontFamily {
    match f {
        ChartFontFamily::Serif => PainterFontFamily::Proportional,
        ChartFontFamily::SansSerif => PainterFontFamily::Proportional,
        ChartFontFamily::Monospace => PainterFontFamily::Monospace,
        ChartFontFamily::Name(s) => PainterFontFamily::Name(s),
    }
}

impl ChartFontFamily {
    /// The painter's family for this chart family.
    pub fn to_painter(&self) -> (r: PainterFontFamily)
        ensures
            r == painter_family_spec(*self),
    {
        match self {
            ChartFontFamily::Serif => PainterFontFamily::Proportional,
            ChartFontFamily::SansSerif => PainterFontFamily::Proportional,
            ChartFontFamily::Monospace => PainterFontFamily::Monospace,
            ChartFontFamily::Name(s) => PainterFontFamily::Name(s.clone()),
        }
    }
}

/// Rotation of a text, in quarter turns.
#[derive(Debug, Clone, Copy, PartialEq, Eq, Structural)]
pub enum FontTransform {
    Upright,
    Rotate90,
    Rotate180,
    Rotate270,
}

impl FontTransform {
    /// Number of quarter turns, from 0 to 3.
    pub open spec fn turns(self) -> nat {
        match self {
            FontTransform::Upright => 0,
            FontTransform::Rotate90 => 1,
            FontTransform::Rotate180 => 2,
            FontTransform::Rotate270 => 3,
        }
    }

    /// Number of quarter turns, from 0 to 3.
    pub fn quarter_turns(&self) -> (r: u32)
        ensures
            r == self.turns(),
    {
        match self {
            FontTransform::Upright => 0,
            FontTransform::Rotate90 => 1,
            FontTransform::Rotate180 => 2,
            FontTransform::Rotate270 => 3,
        }
    }
}

/// Horizontal anchor of a text as the chart gives it.
#[derive(Debug, Clone, Copy, PartialEq, Eq, Structural)]
pub enum HPos {
    Left,
    Right,
    Center,
}

/// Vertical anchor of a text as the chart gives it.
#[derive(Debug, Clone, Copy, PartialEq, Eq, Structural)]
pub enum VPos {
    Top,
    Center,
    Bottom,
}

/// Alignment along one axis, as the painter takes it.
#[derive(Debug, Clone, Copy, PartialEq, Eq, Structural)]
pub enum Align {
    Min,
    Center,
    Max,
}

/// Alignment along both axes: one of nine anchors.
#[derive(Debug, Clone, Copy, PartialEq, Eq, Structural)]
pub struct Align2 {
    pub x: Align,
    pub y: Align,
}

/// The opposite alignment on the same axis.
pub open spec fn flip(a: Align) -> Align {
    match a {
        Align::Min => Align::Max,
        Align::Center => Align::Center,
        Align::Max => Align::Min,
    }
}

/// A quarter turn of an anchor: the corners and the edge centers each move
/// one place clockwise, the center stays.
pub open spec fn rotate_spec(a: Align2) -> Align2 {
    Align2 { x: flip(a.y), y: a.x }
}

/// `turns` quarter turns of an anchor.
pub open spec fn rotate_n(a: Align2, turns: nat) -> Align2
    decreases turns,
{
    if turns == 0 {
        a
    } else {
        rotate_spec(rotate_n(a, (turns - 1) as nat))
    }
}

impl Align2 {
    /// The painter's anchor for the chart's one.
    pub fn from_pos(h: HPos, v: VPos) -> (r: Align2)
        ensures
            r.x == (match h {
                HPos::Left => Align::Min,
                HPos::Center => Align::Center,
                HPos::Right => Align::Max,
            }),
            r.y == (match v {
                VPos::Top => Align::Min,
                VPos::Center => Align::Center,
                VPos::Bottom => Align::Max,
            }),
    {
        let x = match h {
            HPos::Left => Align::Min,
            HPos::Right => Align::Max,
            HPos::Center => Align::Center,
        };
        let y = match v {
            VPos::Top => Align::Min,
            VPos::Center => Align::Center,
            VPos::Bottom => Align::Max,
        };
        Align2 { x, y }
    }

    /// One quarter turn, by the table of the nine anchors.
    pub fn rotate(&mut self)
        ensures
            *final(self) == rotate_spec(*old(self)),
    {
        let r = match (self.x, self.y) {
            (Align::Min, Align::Min) => Align2 { x: Align::Max, y: Align::Min },
            (Align::Max, Align::Min) => Align2 { x: Align::Max, y: Align::Max },
            (Align::Max, Align::Max) => Align2 { x: Align::Min, y: Align::Max },
            (Align::Min, Align::Max) => Align2 { x: Align::Min, y: Align::Min },
            (Align::Min, Align::Center) => Align2 { x: Align::Center, y: Align::Min },
            (Align::Center, Align::Min) => Align2 { x: Align::Max, y: Align::Center },
            (Align::Max, Align::Center) => Align2 { x: Align::Center, y: Align::Max },
            (Align::Center, Align::Max) => Align2 { x: Align::Min, y: Align::Center },
            (Align::Center, Align::Center) => Align2 { x: Align::Center, y: Align::Center },
        };
        *self = r;
    }

    /// `turns` quarter turns.
    pub fn rotated(self, turns: u32) -> (r: Align2)
        ensures
            r == rotate_n(self, turns as nat),
    {
        let mut a = self;
        let mut i: u32 = 0;
        while i < turns
            invariant
                i <= turns,
                a == rotate_n(self, i as nat),
            decreases turns - i,
        {
            a.rotate();
            i = i + 1;
        }
        a
    }
}

/// Four quarter turns bring every anchor back to where it was.
pub proof fn lemma_four_turns_identity(a: Align2)
    ensures
        rotate_n(a, 4) == a,
{
    reveal_with_fuel(rotate_n, 5);
}

} // verus!

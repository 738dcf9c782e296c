//! The interactive transform: pointer input, sampled once per frame, pans,
//! rotates and zooms a chart.
use vstd::prelude::*;

use crate::backend::{EguiBackend, Region};
use crate::fixed::{clamp_i32, clamp_i64, div_trunc, mul_raw, Fixed, ONE};

verus! {

/// Default pitch and yaw scale for pointer rotation, in millionths.
pub const DEFAULT_MOVE_SCALE: i64 = 10_000;

/// Default zoom scale for the scroll wheel, in millionths.
pub const DEFAULT_SCROLL_SCALE: i64 = 1_000;

/// Pan, zoom and 3d rotation of a chart.
///
/// The chart applies the scale and the offsets to every point it draws;
/// pitch and yaw are left to a 3d chart's own projection.
#[derive(Debug, Clone, Copy, PartialEq, Eq, Structural)]
pub struct Transform {
    /// Pitch of a 3d chart.
    pub pitch: Fixed,
    /// Yaw of a 3d chart.
    pub yaw: Fixed,
    /// Zoom factor.
    pub scale: Fixed,
    /// Horizontal pan, in pixels.
    pub x: i32,
    /// Vertical pan, in pixels.
    pub y: i32,
}

/// No rotation, no pan, a scale of one.
pub open spec fn default_transform() -> Transform {
    Transform {
        pitch: Fixed { micros: 0 },
        yaw: Fixed { micros: 0 },
        scale: Fixed { micros: ONE },
        x: 0,
        y: 0,
    }
}

impl Default for Transform {
    fn default() -> (r: Transform)
        ensures
            r == default_transform(),
    {
        Transform { pitch: Fixed::zero(), yaw: Fixed::zero(), scale: Fixed::one(), x: 0, y: 0 }
    }
}

/// Pointer buttons that can be bound to chart actions.
#[derive(Debug, Clone, Copy, PartialEq, Eq, Structural)]
pub enum MouseButton {
    Primary,
    Middle,
    Secondary,
}

/// Which pointer buttons are held during a frame.
#[derive(Debug, Clone, Copy, PartialEq, Eq, Structural)]
pub struct PointerButtons {
    pub primary: bool,
    pub middle: bool,
    pub secondary: bool,
}

impl MouseButton {
    /// Whether this button is held.
    pub open spec fn down_in(self, pointer: PointerButtons) -> bool {
        match self {
            MouseButton::Primary => pointer.primary,
            MouseButton::Middle => pointer.middle,
            MouseButton::Secondary => pointer.secondary,
        }
    }

    /// Whether this button is held.
    pub fn is_down(&self, pointer: &PointerButtons) -> (r: bool)
        ensures
            r == self.down_in(*pointer),
    {
        match self {
            MouseButton::Primary => pointer.primary,
            MouseButton::Middle => pointer.middle,
            MouseButton::Secondary => pointer.secondary,
        }
    }
}

/// What the pointer did since the last frame: how far it moved, how far
/// the wheel scrolled, and which buttons are held.
#[derive(Debug, Clone, Copy, PartialEq, Eq, Structural)]
pub struct PointerInput {
    pub delta_x: Fixed,
    pub delta_y: Fixed,
    pub scroll_y: Fixed,
    pub buttons: PointerButtons,
}

/// How the pointer acts on a chart: which of pan, rotation and zoom are on,
/// how fast rotation and zoom go, and which button pans and which rotates.
#[derive(Debug, Clone, Copy, PartialEq, Eq, Structural)]
pub struct MouseConfig {
    pub drag: bool,
    pub rotate: bool,
    pub zoom: bool,
    pub yaw_scale: Fixed,
    pub pitch_scale: Fixed,
    pub zoom_scale: Fixed,
    pub drag_bind: MouseButton,
    pub rotate_bind: MouseButton,
}

/// Default sensitivities and bindings: the middle button pans, the primary
/// one rotates.
pub open spec fn mouse_defaults(drag: bool, rotate: bool, zoom: bool) -> MouseConfig {
    MouseConfig {
        drag,
        rotate,
        zoom,
        yaw_scale: Fixed { micros: DEFAULT_MOVE_SCALE },
        pitch_scale: Fixed { micros: DEFAULT_MOVE_SCALE },
        zoom_scale: Fixed { micros: DEFAULT_SCROLL_SCALE },
        drag_bind: MouseButton::Middle,
        rotate_bind: MouseButton::Primary,
    }
}

impl Default for MouseConfig {
    /// Everything off.
    fn default() -> (r: MouseConfig)
        ensures
            r == mouse_defaults(false, false, false),
    {
        MouseConfig {
            drag: false,
            rotate: false,
            zoom: false,
            yaw_scale: Fixed::from_micros(DEFAULT_MOVE_SCALE),
            pitch_scale: Fixed::from_micros(DEFAULT_MOVE_SCALE),
            zoom_scale: Fixed::from_micros(DEFAULT_SCROLL_SCALE),
            drag_bind: MouseButton::Middle,
            rotate_bind: MouseButton::Primary,
        }
    }
}

/// Pitch after a frame: moves by the vertical pointer motion times the pitch
/// scale while rotation is on and its button is held.
pub open spec fn next_pitch(t: Transform, m: MouseConfig, i: PointerInput) -> int {
    if m.rotate && m.rotate_bind.down_in(i.buttons) {
        clamp_i64(t.pitch.raw() + mul_raw(i.delta_y.raw(), m.pitch_scale.raw()))
    } else {
        t.pitch.raw()
    }
}

/// Yaw after a frame: moves against the horizontal pointer motion times the
/// yaw scale while rotation is on and its button is held.
pub open spec fn next_yaw(t: Transform, m: MouseConfig, i: PointerInput) -> int {
    if m.rotate && m.rotate_bind.down_in(i.buttons) {
        clamp_i64(t.yaw.raw() - mul_raw(i.delta_x.raw(), m.yaw_scale.raw()))
    } else {
        t.yaw.raw()
    }
}

/// A pan offset after a frame: moves by the pointer motion in whole pixels
/// (rounded toward zero) while panning is on and its button is held.
pub open spec fn next_offset(o: i32, delta: Fixed, m: MouseConfig, i: PointerInput) -> int {
    if m.drag && m.drag_bind.down_in(i.buttons) {
        clamp_i32(o + clamp_i32(div_trunc(delta.raw(), ONE as int)))
    } else {
        o as int
    }
}

/// The absolute value of a mathematical integer.
pub open spec fn abs(x: int) -> int {
    if x < 0 {
        -x
    } else {
        x
    }
}

/// The scale after one scroll: the scroll times the zoom scale is added,
/// and the sum is folded to its absolute value.
pub open spec fn zoomed(scale: int, scroll: int, zoom_scale: int) -> int {
    clamp_i64(abs(clamp_i64(scale + mul_raw(scroll, zoom_scale))))
}

/// The scale after a frame: zoomed while zoom is on.
pub open spec fn next_scale(t: Transform, m: MouseConfig, i: PointerInput) -> int {
    if m.zoom {
        zoomed(t.scale.raw(), i.scroll_y.raw(), m.zoom_scale.raw())
    } else {
        t.scale.raw()
    }
}

/// The transform after a frame of pointer input.
pub open spec fn next_transform(t: Transform, m: MouseConfig, i: PointerInput) -> Transform {
    Transform {
        pitch: Fixed { micros: next_pitch(t, m, i) as i64 },
        yaw: Fixed { micros: next_yaw(t, m, i) as i64 },
        scale: Fixed { micros: next_scale(t, m, i) as i64 },
        x: next_offset(t.x, i.delta_x, m, i) as i32,
        y: next_offset(t.y, i.delta_y, m, i) as i32,
    }
}

/// The transform after a sequence of frames of pointer input.
pub open spec fn after_frames(t: Transform, m: MouseConfig, inputs: Seq<PointerInput>) -> Transform
    decreases inputs.len(),
{
    if inputs.len() == 0 {
        t
    } else {
        next_transform(after_frames(t, m, inputs.drop_last()), m, inputs.last())
    }
}

/// While zoom is on, the scale is never negative after a frame, whatever
/// was scrolled in it or in any frame before.
pub proof fn lemma_zoom_never_negative(t: Transform, m: MouseConfig, inputs: Seq<PointerInput>)
    requires
        m.zoom,
        inputs.len() > 0,
    ensures
        after_frames(t, m, inputs).scale.raw() >= 0,
        next_transform(after_frames(t, m, inputs.drop_last()), m, inputs.last()).scale.raw() >= 0,
{
}

/// With rotation off, no pointer motion changes pitch or yaw, over any
/// number of frames.
pub proof fn lemma_rotation_off_keeps_angles(t: Transform, m: MouseConfig, inputs: Seq<PointerInput>)
    requires
        !m.rotate,
    ensures
        after_frames(t, m, inputs).pitch == t.pitch,
        after_frames(t, m, inputs).yaw == t.yaw,
    decreases inputs.len(),
{
    if inputs.len() > 0 {
        lemma_rotation_off_keeps_angles(t, m, inputs.drop_last());
    }
}

/// With panning off, no pointer motion changes the offsets, over any
/// number of frames.
pub proof fn lemma_drag_off_keeps_offset(t: Transform, m: MouseConfig, inputs: Seq<PointerInput>)
    requires
        !m.drag,
    ensures
        after_frames(t, m, inputs).x == t.x,
        after_frames(t, m, inputs).y == t.y,
    decreases inputs.len(),
{
    if inputs.len() > 0 {
        lemma_drag_off_keeps_offset(t, m, inputs.drop_last());
    }
}

/// Adds a whole-pixel motion to an offset, saturated.
fn pan(o: i32, delta: Fixed) -> (r: i32)
    ensures
        r == clamp_i32(o + clamp_i32(div_trunc(delta.raw(), ONE as int))),
{
    let d: i32 = delta.trunc_i32();
    let s: i64 = o as i64 + d as i64;
    if s < i32::MIN as i64 {
        i32::MIN
    } else if s > i32::MAX as i64 {
        i32::MAX
    } else {
        s as i32
    }
}

impl MouseConfig {
    /// Panning, rotation and zoom all on.
    pub fn enabled() -> (r: MouseConfig)
        ensures
            r == mouse_defaults(true, true, true),
    {
        MouseConfig {
            drag: true,
            rotate: true,
            zoom: true,
            yaw_scale: Fixed::from_micros(DEFAULT_MOVE_SCALE),
            pitch_scale: Fixed::from_micros(DEFAULT_MOVE_SCALE),
            zoom_scale: Fixed::from_micros(DEFAULT_SCROLL_SCALE),
            drag_bind: MouseButton::Middle,
            rotate_bind: MouseButton::Primary,
        }
    }

    /// Turns panning, rotation and zoom on.
    fn set_enable_all(&mut self)
        ensures
            *final(self) == (MouseConfig { drag: true, rotate: true, zoom: true, ..*old(self) }),
    {
        self.set_drag(true);
        self.set_zoom(true);
        self.set_rotate(true);
    }

    /// Turns panning, rotation and zoom on. Consumes self.
    pub fn enable_all(self) -> (r: MouseConfig)
        ensures
            r == (MouseConfig { drag: true, rotate: true, zoom: true, ..self }),
    {
        let mut s = self;
        s.set_enable_all();
        s
    }

    /// Turns panning of the chart on or off.
    pub fn set_drag(&mut self, drag: bool)
        ensures
            *final(self) == (MouseConfig { drag: drag, ..*old(self) }),
    {
        self.drag = drag;
    }

    /// Turns panning of the chart on or off. Consumes self.
    pub fn drag(self, drag: bool) -> (r: MouseConfig)
        ensures
            r == (MouseConfig { drag: drag, ..self }),
    {
        let mut s = self;
        s.set_drag(drag);
        s
    }

    /// Turns rotation of the chart on or off.
    pub fn set_rotate(&mut self, rotate: bool)
        ensures
            *final(self) == (MouseConfig { rotate: rotate, ..*old(self) }),
    {
        self.rotate = rotate;
    }

    /// Turns rotation of the chart on or off. Consumes self.
    pub fn rotate(self, rotate: bool) -> (r: MouseConfig)
        ensures
            r == (MouseConfig { rotate: rotate, ..self }),
    {
        let mut s = self;
        s.set_rotate(rotate);
        s
    }

    /// Turns zoom of the chart on or off.
    pub fn set_zoom(&mut self, zoom: bool)
        ensures
            *final(self) == (MouseConfig { zoom: zoom, ..*old(self) }),
    {
        self.zoom = zoom;
    }

    /// Turns zoom of the chart on or off. Consumes self.
    pub fn zoom(self, zoom: bool) -> (r: MouseConfig)
        ensures
            r == (MouseConfig { zoom: zoom, ..self }),
    {
        let mut s = self;
        s.set_zoom(zoom);
        s
    }

    /// Sets how fast vertical pointer motion changes the pitch.
    pub fn set_pitch_scale(&mut self, pitch_scale: Fixed)
        ensures
            *final(self) == (MouseConfig { pitch_scale: pitch_scale, ..*old(self) }),
    {
        self.pitch_scale = pitch_scale;
    }

    /// Sets how fast vertical pointer motion changes the pitch. Consumes self.
    pub fn pitch_scale(self, pitch_scale: Fixed) -> (r: MouseConfig)
        ensures
            r == (MouseConfig { pitch_scale: pitch_scale, ..self }),
    {
        let mut s = self;
        s.set_pitch_scale(pitch_scale);
        s
    }

    /// Sets how fast horizontal pointer motion changes the yaw.
    pub fn set_yaw_scale(&mut self, yaw_scale: Fixed)
        ensures
            *final(self) == (MouseConfig { yaw_scale: yaw_scale, ..*old(self) }),
    {
        self.yaw_scale = yaw_scale;
    }

    /// Sets how fast horizontal pointer motion changes the yaw. Consumes self.
    pub fn yaw_scale(self, yaw_scale: Fixed) -> (r: MouseConfig)
        ensures
            r == (MouseConfig { yaw_scale: yaw_scale, ..self }),
    {
        let mut s = self;
        s.set_yaw_scale(yaw_scale);
        s
    }

    /// Sets how fast scrolling zooms.
    pub fn set_zoom_scale(&mut self, zoom_scale: Fixed)
        ensures
            *final(self) == (MouseConfig { zoom_scale: zoom_scale, ..*old(self) }),
    {
        self.zoom_scale = zoom_scale;
    }

    /// Sets how fast scrolling zooms. Consumes self.
    pub fn zoom_scale(self, zoom_scale: Fixed) -> (r: MouseConfig)
        ensures
            r == (MouseConfig { zoom_scale: zoom_scale, ..self }),
    {
        let mut s = self;
        s.set_zoom_scale(zoom_scale);
        s
    }

    /// Sets the button that pans the chart.
    pub fn set_drag_bind(&mut self, drag_bind: MouseButton)
        ensures
            *final(self) == (MouseConfig { drag_bind: drag_bind, ..*old(self) }),
    {
        self.drag_bind = drag_bind;
    }

    /// Sets the button that pans the chart. Consumes self.
    pub fn drag_bind(self, drag_bind: MouseButton) -> (r: MouseConfig)
        ensures
            r == (MouseConfig { drag_bind: drag_bind, ..self }),
    {
        let mut s = self;
        s.set_drag_bind(drag_bind);
        s
    }

    /// Sets the button that rotates the chart.
    pub fn set_rotate_bind(&mut self, rotate_bind: MouseButton)
        ensures
            *final(self) == (MouseConfig { rotate_bind: rotate_bind, ..*old(self) }),
    {
        self.rotate_bind = rotate_bind;
    }

    /// Sets the button that rotates the chart. Consumes self.
    pub fn rotate_bind(self, rotate_bind: MouseButton) -> (r: MouseConfig)
        ensures
            r == (MouseConfig { rotate_bind: rotate_bind, ..self }),
    {
        let mut s = self;
        s.set_rotate_bind(rotate_bind);
        s
    }

    /// Applies one frame of pointer input to a transform.
    pub fn apply(&self, t: &mut Transform, input: &PointerInput)
        ensures
            *final(t) == next_transform(*old(t), *self, *input),
    {
        if self.rotate && self.rotate_bind.is_down(&input.buttons) {
            let pitch_delta = input.delta_y.saturating_mul(self.pitch_scale);
            let yaw_delta = input.delta_x.saturating_mul(self.yaw_scale);
            t.pitch = t.pitch.saturating_add(pitch_delta);
            t.yaw = t.yaw.saturating_sub(yaw_delta);
        }
        if self.drag && self.drag_bind.is_down(&input.buttons) {
            t.x = pan(t.x, input.delta_x);
            t.y = pan(t.y, input.delta_y);
        }
        if self.zoom {
            let scale_delta = input.scroll_y.saturating_mul(self.zoom_scale);
            t.scale = t.scale.saturating_add(scale_delta).saturating_abs();
        }
    }
}

/// A chart that pointer input pans, rotates and zooms, with data of the
/// caller's own that is handed to the drawing code each frame.
pub struct Chart<Data> {
    pub transform: Transform,
    pub mouse: MouseConfig,
    pub data: Data,
}

impl<Data> Chart<Data> {
    /// A chart with the default transform, the pointer off and `data`.
    pub fn new(data: Data) -> (r: Chart<Data>)
        ensures
            r.transform == default_transform(),
            r.mouse == mouse_defaults(false, false, false),
            r.data == data,
    {
        Chart { transform: Transform::default(), mouse: MouseConfig::default(), data }
    }

    /// Sets how the pointer acts on the chart.
    pub fn set_mouse(&mut self, mouse: MouseConfig)
        ensures
            final(self).mouse == mouse,
            final(self).transform == old(self).transform,
            final(self).data == old(self).data,
    {
        self.mouse = mouse;
    }

    /// Sets how the pointer acts on the chart. Consumes self.
    pub fn mouse(self, mouse: MouseConfig) -> (r: Chart<Data>)
        ensures
            r.mouse == mouse,
            r.transform == self.transform,
            r.data == self.data,
    {
        let mut s = self;
        s.set_mouse(mouse);
        s
    }

    /// Sets the pitch.
    pub fn set_pitch(&mut self, pitch: Fixed)
        ensures
            final(self).transform.pitch == pitch,
            final(self).transform == (Transform { pitch, ..old(self).transform }),
            final(self).mouse == old(self).mouse,
            final(self).data == old(self).data,
    {
        self.transform.pitch = pitch;
    }

    /// Sets the pitch. Consumes self.
    pub fn pitch(self, pitch: Fixed) -> (r: Chart<Data>)
        ensures
            r.transform == (Transform { pitch, ..self.transform }),
            r.mouse == self.mouse,
            r.data == self.data,
    {
        let mut s = self;
        s.set_pitch(pitch);
        s
    }

    /// Sets the yaw.
    pub fn set_yaw(&mut self, yaw: Fixed)
        ensures
            final(self).transform.yaw == yaw,
            final(self).transform == (Transform { yaw, ..old(self).transform }),
            final(self).mouse == old(self).mouse,
            final(self).data == old(self).data,
    {
        self.transform.yaw = yaw;
    }

    /// Sets the yaw. Consumes self.
    pub fn yaw(self, yaw: Fixed) -> (r: Chart<Data>)
        ensures
            r.transform == (Transform { yaw, ..self.transform }),
            r.mouse == self.mouse,
            r.data == self.data,
    {
        let mut s = self;
        s.set_yaw(yaw);
        s
    }

    /// Sets the zoom factor.
    pub fn set_scale(&mut self, scale: Fixed)
        ensures
            final(self).transform.scale == scale,
            final(self).transform == (Transform { scale, ..old(self).transform }),
            final(self).mouse == old(self).mouse,
            final(self).data == old(self).data,
    {
        self.transform.scale = scale;
    }

    /// Sets the zoom factor. Consumes self.
    pub fn scale(self, scale: Fixed) -> (r: Chart<Data>)
        ensures
            r.transform == (Transform { scale, ..self.transform }),
            r.mouse == self.mouse,
            r.data == self.data,
    {
        let mut s = self;
        s.set_scale(scale);
        s
    }

    /// Replaces the data handed to the drawing code.
    pub fn set_data(&mut self, data: Data)
        ensures
            final(self).data == data,
            final(self).transform == old(self).transform,
            final(self).mouse == old(self).mouse,
    {
        self.data = data;
    }

    /// Replaces the data. Consumes self.
    pub fn data(self, data: Data) -> (r: Chart<Data>)
        ensures
            r.data == data,
            r.transform == self.transform,
            r.mouse == self.mouse,
    {
        let mut s = self;
        s.set_data(data);
        s
    }

    /// The data handed to the drawing code.
    pub fn get_data(&self) -> (r: &Data)
        ensures
            *r == self.data,
    {
        &self.data
    }

    /// The data, to change in place.
    pub fn get_data_mut(&mut self) -> (r: &mut Data)
        ensures
            *r == old(self).data,
            final(self).data == *final(r),
            final(self).transform == old(self).transform,
            final(self).mouse == old(self).mouse,
    {
        &mut self.data
    }

    /// The current transform.
    pub fn get_transform(&self) -> (r: Transform)
        ensures
            r == self.transform,
    {
        self.transform
    }

    /// How the pointer acts on the chart.
    pub fn get_mouse(&self) -> (r: MouseConfig)
        ensures
            r == self.mouse,
    {
        self.mouse
    }

    /// Samples one frame of pointer input into the transform, then gives the
    /// surface to draw this frame on: `region`, panned and zoomed by the new
    /// transform.
    pub fn draw(&mut self, input: &PointerInput, region: Region) -> (r: EguiBackend)
        ensures
            final(self).transform == next_transform(old(self).transform, old(self).mouse, *input),
            final(self).mouse == old(self).mouse,
            final(self).data == old(self).data,
            r == (EguiBackend {
                region,
                x: final(self).transform.x,
                y: final(self).transform.y,
                scale: final(self).transform.scale,
            }),
    {
        let mouse = self.mouse;
        mouse.apply(&mut self.transform, input);
        EguiBackend::new(region).offset((self.transform.x, self.transform.y)).scale(self.transform.scale)
    }
}

} // verus!

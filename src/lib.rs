//! Interactive plotting surfaces for an immediate-mode GUI.
//!
//! The library holds the geometry of a drawing surface (pan and zoom of
//! every point drawn on it, and the cut of filled polygons into triangles),
//! the interactive transform that pointer input drives from frame to frame,
//! and the playback clock of the animated chart presets. Real quantities
//! are fixed-point numbers with a resolution of one millionth (see
//! [`Fixed`]); instants are microseconds of a monotonic clock.
pub mod backend;
pub mod chart;
pub mod charts;
pub mod fixed;
pub mod playback;
pub mod style;
pub mod triangulate;

pub use backend::{EguiBackend, EguiBackendError, Region, ScreenPos, Shape, TextShape, TextStyle};
pub use chart::{
    Chart, MouseButton, MouseConfig, PointerButtons, PointerInput, Transform, DEFAULT_MOVE_SCALE,
    DEFAULT_SCROLL_SCALE,
};
pub use fixed::Fixed;

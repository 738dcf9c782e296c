//! Premade animatable charts.
pub mod timedata;
pub mod xytime;

pub use timedata::TimeData;
pub use xytime::{XyTimeConfig, XyTimeData};

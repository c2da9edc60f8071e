//! Scalar helpers, colour notation and tween loop modes, proved with Verus.
//!
//! Everything here works on integers and bytes; each function carries a
//! contract that fixes its result.

pub mod colors;
pub mod curves;
pub mod math;

pub use colors::Color;
pub use math::Math;

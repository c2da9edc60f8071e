//! How a tween runs through its time.

pub mod interpolation_type;

pub use interpolation_type::InterpolationType;

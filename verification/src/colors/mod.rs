//! Colours with eight bits per channel, and the notations that name them.

pub mod color;
pub mod hex;
pub mod names;

pub use color::Color;

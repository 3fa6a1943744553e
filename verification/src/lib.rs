//! Two composite widgets for small embedded displays: a titled panel with an
//! accent bar (`card`) and a numeric readout with a unit (`measurment`).
//!
//! A widget arranges itself into an ordered list of drawing steps and says,
//! one call at a time, which of them is to be painted next. Putting a step on
//! a display is the caller's part: this crate knows geometry and text, not
//! pixels.

pub mod card;
pub mod digits;
pub mod geometry;
pub mod measurment;
pub mod sequence;
pub mod typeface;

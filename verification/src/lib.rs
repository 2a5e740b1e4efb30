//! Layout and painting of a dividing rule on an integer pixel grid, together
//! with the pointer events that widgets receive.
//!
//! Every length and coordinate is a whole number of pixels, so each result is
//! an exact integer and each contract an exact statement about it.

pub mod element;
pub mod geometry;
pub mod layout;
pub mod mouse;
pub mod renderer;
pub mod rule;
pub mod style;
pub mod theme;
pub mod widget;

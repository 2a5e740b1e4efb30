//! The sink that widgets paint into.

use vstd::prelude::*;
use crate::geometry::{Color, Rectangle};

verus! {

/// A box to be filled: where it lies, how round its corners are, and the
/// border drawn around it.
#[derive(Clone, Copy, Debug, PartialEq, Eq, Structural)]
pub struct Quad {
    /// Where the box lies.
    pub bounds: Rectangle,
    /// The radius of its corners, in pixels.
    pub border_radius: u16,
    /// The thickness of its border, in pixels.
    pub border_width: u16,
    /// The colour of its border.
    pub border_color: Color,
}

/// Something that can fill boxes with colour.
///
/// A renderer only ever takes in: what it was handed stays, in the order in
/// which it came.
pub trait Renderer {
    /// The set of rules from which widgets painted here take their look.
    type Theme;

    /// Every box handed over so far, each with its fill colour, oldest first.
    spec fn quads(&self) -> Seq<(Quad, Color)>;

    /// Fills `quad` with `color`: the pair is added after all that came before.
    fn fill_quad(&mut self, quad: Quad, color: Color)
        ensures
            final(self).quads() == old(self).quads().push((quad, color)),
    ;
}

} // verus!

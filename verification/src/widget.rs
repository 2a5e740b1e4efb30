//! What every visual element can do: say how much room it wants, take its
//! place, and paint itself.

use vstd::prelude::*;
use crate::geometry::{Color, Length, Rectangle, Size};
use crate::layout::{Limits, Node};
use crate::renderer::{Quad, Renderer};

verus! {

/// A visual element that is laid out and then painted into a renderer `R`.
pub trait Widget<R: Renderer> {
    /// The state that the surrounding tree keeps for a widget of this kind.
    type State;

    /// The room this widget wants across.
    spec fn width_intent(&self) -> Length;

    /// The room this widget wants down.
    spec fn height_intent(&self) -> Length;

    /// The size this widget takes when it is laid out within `limits`.
    spec fn size_within(&self, limits: Limits) -> Size;

    /// Whether this widget can be painted in `bounds`: whether every box it
    /// would hand over has coordinates that a [`Rectangle`] can hold.
    spec fn paintable(&self, theme: &R::Theme, bounds: Rectangle) -> bool;

    /// What this widget hands to the renderer when it is painted in `bounds`,
    /// in the order in which it hands it over.
    spec fn painted(&self, theme: &R::Theme, bounds: Rectangle) -> Seq<(Quad, Color)>;

    /// Returns the room this widget wants across.
    fn width(&self) -> (width: Length)
        ensures
            width == self.width_intent(),
    ;

    /// Returns the room this widget wants down.
    fn height(&self) -> (height: Length)
        ensures
            height == self.height_intent(),
    ;

    /// Lays this widget out within `limits`. The node that comes back is
    /// well formed, and its size is the one that `limits` and this widget
    /// decide, which `limits` holds.
    fn layout(&self, renderer: &R, limits: &Limits) -> (node: Node)
        requires
            limits.wf(),
        ensures
            node.wf(),
            node.spec_size() == self.size_within(*limits),
            limits.holds(node.spec_size()),
    ;

    /// Returns whether this widget can be painted in `bounds`.
    fn can_draw(&self, theme: &R::Theme, bounds: Rectangle) -> (ok: bool)
        ensures
            ok == self.paintable(theme, bounds),
    ;

    /// Paints this widget in `bounds`: hands its boxes to the renderer, after
    /// all that the renderer held before, and changes nothing else.
    fn draw(
        &self,
        state: &Self::State,
        renderer: &mut R,
        theme: &R::Theme,
        bounds: Rectangle,
        viewport: &Rectangle,
    )
        requires
            self.paintable(theme, bounds),
        ensures
            final(renderer).quads() == old(renderer).quads() + self.painted(theme, bounds),
    ;
}

} // verus!

//! One type for every widget, so that widgets of different kinds can stand
//! side by side.

use vstd::prelude::*;
use vstd::std_specs::convert::FromSpecImpl;
use crate::geometry::{Color, Length, Rectangle, Size};
use crate::layout::{Limits, Node};
use crate::renderer::{Quad, Renderer};
use crate::rule::Rule;
use crate::style::StyleSheet;
use crate::widget::Widget;

verus! {

/// Any widget. An element asks for the room, takes the place and paints the
/// boxes of the widget inside it, and nothing of its own.
pub enum Element<R: Renderer> where R::Theme: StyleSheet {
    /// A dividing rule.
    Rule(Rule<R>),
}

impl<R: Renderer> From<Rule<R>> for Element<R> where R::Theme: StyleSheet {
    /// Wraps a rule.
    fn from(rule: Rule<R>) -> (element: Element<R>) {
        Element::Rule(rule)
    }
}

impl<R: Renderer> FromSpecImpl<Rule<R>> for Element<R> where R::Theme: StyleSheet {
    open spec fn obeys_from_spec() -> bool {
        true
    }

    open spec fn from_spec(rule: Rule<R>) -> Element<R> {
        Element::Rule(rule)
    }
}

impl<R: Renderer> Widget<R> for Element<R> where R::Theme: StyleSheet {
    type State = ();

    open spec fn width_intent(&self) -> Length {
        match self {
            Element::Rule(rule) => rule.width_intent(),
        }
    }

    open spec fn height_intent(&self) -> Length {
        match self {
            Element::Rule(rule) => rule.height_intent(),
        }
    }

    open spec fn size_within(&self, limits: Limits) -> Size {
        match self {
            Element::Rule(rule) => rule.size_within(limits),
        }
    }

    open spec fn paintable(&self, theme: &R::Theme, bounds: Rectangle) -> bool {
        match self {
            Element::Rule(rule) => rule.paintable(theme, bounds),
        }
    }

    open spec fn painted(&self, theme: &R::Theme, bounds: Rectangle) -> Seq<(Quad, Color)> {
        match self {
            Element::Rule(rule) => rule.painted(theme, bounds),
        }
    }

    fn width(&self) -> (width: Length) {
        match self {
            Element::Rule(rule) => rule.width(),
        }
    }

    fn height(&self) -> (height: Length) {
        match self {
            Element::Rule(rule) => rule.height(),
        }
    }

    fn layout(&self, renderer: &R, limits: &Limits) -> (node: Node) {
        match self {
            Element::Rule(rule) => rule.layout(renderer, limits),
        }
    }

    fn can_draw(&self, theme: &R::Theme, bounds: Rectangle) -> (ok: bool) {
        match self {
            Element::Rule(rule) => rule.can_draw(theme, bounds),
        }
    }

    fn draw(
        &self,
        state: &(),
        renderer: &mut R,
        theme: &R::Theme,
        bounds: Rectangle,
        viewport: &Rectangle,
    ) {
        match self {
            Element::Rule(rule) => rule.draw(state, renderer, theme, bounds, viewport),
        }
    }
}

} // verus!

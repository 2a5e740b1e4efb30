//! A plain theme, and a renderer that keeps what it is handed.

use vstd::prelude::*;
use crate::geometry::Color;
use crate::renderer::{Quad, Renderer};
use crate::style::{Appearance, StyleSheet};

verus! {

/// The key by which a rule chooses its look from a [`Theme`].
#[derive(Clone, Copy, Debug, PartialEq, Eq, Structural)]
pub enum RuleStyle {
    /// The look that the theme gives to rules.
    Default,
    /// This look, whatever the theme says.
    Custom(Appearance),
}

impl Default for RuleStyle {
    /// The key of a rule that was given none: the theme's own look.
    fn default() -> (style: RuleStyle)
        ensures
            style == RuleStyle::Default,
    {
        RuleStyle::Default
    }
}

/// A theme: the look that rules have unless they bring their own.
#[derive(Clone, Copy, Debug, PartialEq, Eq, Structural)]
pub struct Theme {
    rule: Appearance,
}

impl Theme {
    /// The look that this theme gives to rules.
    pub closed spec fn spec_rule(&self) -> Appearance {
        self.rule
    }

    /// Returns the theme that gives rules the look `rule`.
    pub fn new(rule: Appearance) -> (theme: Theme)
        ensures
            theme.spec_rule() == rule,
    {
        Theme { rule }
    }

    /// Returns the look that this theme gives to rules.
    #[verifier::when_used_as_spec(spec_rule)]
    pub fn rule(&self) -> (rule: Appearance)
        ensures
            rule == self.spec_rule(),
    {
        self.rule
    }
}

impl StyleSheet for Theme {
    type Style = RuleStyle;

    open spec fn look(&self, style: &RuleStyle) -> Appearance {
        match *style {
            RuleStyle::Default => self.spec_rule(),
            RuleStyle::Custom(appearance) => appearance,
        }
    }

    fn appearance(&self, style: &RuleStyle) -> (appearance: Appearance) {
        match *style {
            RuleStyle::Default => self.rule,
            RuleStyle::Custom(appearance) => appearance,
        }
    }
}

/// A renderer that draws nothing and keeps every box it is handed, so that
/// what was painted can be read back.
#[derive(Debug)]
pub struct Recorder {
    recorded: Vec<(Quad, Color)>,
}

impl Recorder {
    /// Returns a recorder that holds nothing yet.
    pub fn new() -> (recorder: Recorder)
        ensures
            recorder.quads() == Seq::<(Quad, Color)>::empty(),
    {
        Recorder { recorded: Vec::new() }
    }

    /// Returns how many boxes were handed over.
    pub fn len(&self) -> (len: usize)
        ensures
            len == self.quads().len(),
    {
        self.recorded.len()
    }

    /// Returns the box that was handed over at place `index`, counted from
    /// zero, with its fill colour; `None` where fewer boxes came.
    pub fn get(&self, index: usize) -> (entry: Option<(Quad, Color)>)
        ensures
            index < self.quads().len() ==> entry == Some(self.quads()[index as int]),
            index >= self.quads().len() ==> entry.is_none(),
    {
        if index < self.recorded.len() {
            Some(self.recorded[index])
        } else {
            None
        }
    }
}

impl Renderer for Recorder {
    type Theme = Theme;

    closed spec fn quads(&self) -> Seq<(Quad, Color)> {
        self.recorded@
    }

    fn fill_quad(&mut self, quad: Quad, color: Color) {
        self.recorded.push((quad, color));
    }
}

} // verus!

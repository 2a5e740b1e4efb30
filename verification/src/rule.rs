//! A horizontal or vertical rule that divides content.

use vstd::prelude::*;
use crate::geometry::{Color, Length, Pixels, Rectangle, Size};
use crate::layout::{Limits, Node};
use crate::renderer::{Quad, Renderer};
use crate::style::{lemma_fill_is_bounded, lemma_fill_stays_inside, Appearance, FillMode, StyleSheet};
use crate::widget::Widget;

verus! {

/// Half of `doubled`, rounded to the nearest whole number; a half goes away
/// from zero.
pub open spec fn half_rounded(doubled: int) -> int {
    if doubled >= 0 {
        (doubled + 1) / 2
    } else {
        -((1 - doubled) / 2)
    }
}

/// Where a stroke of thickness `stroke` starts when it is centred in the
/// `room` pixels that begin at `start`: `start + room / 2 - stroke / 2`,
/// rounded to a whole pixel.
pub open spec fn centred_start(start: int, room: int, stroke: int) -> int {
    half_rounded(2 * start + room - stroke)
}

/// The left edge of the line of a rule painted in `bounds`.
pub open spec fn line_x(is_horizontal: bool, look: Appearance, bounds: Rectangle) -> int {
    if is_horizontal {
        bounds.x + look.fill_mode.fill_offset(bounds.width as int)
    } else {
        centred_start(bounds.x as int, bounds.width as int, look.width as int)
    }
}

/// The top edge of the line of a rule painted in `bounds`.
pub open spec fn line_y(is_horizontal: bool, look: Appearance, bounds: Rectangle) -> int {
    if is_horizontal {
        centred_start(bounds.y as int, bounds.height as int, look.width as int)
    } else {
        bounds.y + look.fill_mode.fill_offset(bounds.height as int)
    }
}

/// How far the line of a rule painted in `bounds` reaches across.
pub open spec fn line_width(is_horizontal: bool, look: Appearance, bounds: Rectangle) -> int {
    if is_horizontal {
        look.fill_mode.fill_length(bounds.width as int)
    } else {
        look.width as int
    }
}

/// How far the line of a rule painted in `bounds` reaches down.
pub open spec fn line_height(is_horizontal: bool, look: Appearance, bounds: Rectangle) -> int {
    if is_horizontal {
        look.width as int
    } else {
        look.fill_mode.fill_length(bounds.height as int)
    }
}

/// Whether the corner of the line can be written down: whether both of its
/// coordinates are within the range of a [`Rectangle`]'s.
pub open spec fn line_fits(is_horizontal: bool, look: Appearance, bounds: Rectangle) -> bool {
    &&& i32::MIN <= line_x(is_horizontal, look, bounds) <= i32::MAX
    &&& i32::MIN <= line_y(is_horizontal, look, bounds) <= i32::MAX
}

/// The box that the line of a rule fills when the rule is painted in `bounds`
/// with the look `look`.
pub open spec fn line_bounds(is_horizontal: bool, look: Appearance, bounds: Rectangle) -> Rectangle {
    Rectangle {
        x: line_x(is_horizontal, look, bounds) as i32,
        y: line_y(is_horizontal, look, bounds) as i32,
        width: line_width(is_horizontal, look, bounds) as u32,
        height: line_height(is_horizontal, look, bounds) as u32,
    }
}

/// What a rule hands to the renderer: its line, with the corners of the look,
/// no border, and the colour of the look.
pub open spec fn line_quad(is_horizontal: bool, look: Appearance, bounds: Rectangle) -> (
    Quad,
    Color,
) {
    (
        Quad {
            bounds: line_bounds(is_horizontal, look, bounds),
            border_radius: look.radius,
            border_width: 0,
            border_color: Color { r: 0, g: 0, b: 0, a: 0 },
        },
        look.color,
    )
}

/// The stroke of a rule is centred across its box: the middle of the line is
/// no more than half a pixel from the middle of the box.
pub proof fn lemma_line_is_centred(is_horizontal: bool, look: Appearance, bounds: Rectangle)
    ensures
        is_horizontal ==> -1 <= 2 * line_y(is_horizontal, look, bounds) + look.width - (2
            * bounds.y + bounds.height) <= 1,
        !is_horizontal ==> -1 <= 2 * line_x(is_horizontal, look, bounds) + look.width - (2
            * bounds.x + bounds.width) <= 1,
{
}

/// A full line runs from one end of the box to the other: it starts where
/// the box starts and is as long as the box.
pub proof fn lemma_full_line_spans_bounds(is_horizontal: bool, look: Appearance, bounds: Rectangle)
    requires
        look.fill_mode == FillMode::Full,
    ensures
        is_horizontal ==> line_bounds(is_horizontal, look, bounds).x == bounds.x && line_bounds(
            is_horizontal,
            look,
            bounds,
        ).width == bounds.width,
        !is_horizontal ==> line_bounds(is_horizontal, look, bounds).y == bounds.y && line_bounds(
            is_horizontal,
            look,
            bounds,
        ).height == bounds.height,
{
}

/// The line has the thickness of the look's stroke, and along the box it is
/// never longer than the box: no side of it is ever negative.
pub proof fn lemma_line_extent(is_horizontal: bool, look: Appearance, bounds: Rectangle)
    ensures
        is_horizontal ==> line_height(is_horizontal, look, bounds) == look.width && 0
            <= line_width(is_horizontal, look, bounds) <= bounds.width,
        !is_horizontal ==> line_width(is_horizontal, look, bounds) == look.width && 0
            <= line_height(is_horizontal, look, bounds) <= bounds.height,
{
    lemma_fill_is_bounded(look.fill_mode, bounds.width as int);
    lemma_fill_is_bounded(look.fill_mode, bounds.height as int);
}

/// Whether the line of a rule has room in `bounds`: the stroke is no thicker
/// than the box, the line begins inside the box, and the far edges of the box
/// are within the range of coordinates.
pub open spec fn line_has_room(is_horizontal: bool, look: Appearance, bounds: Rectangle) -> bool {
    let along: int = if is_horizontal {
        bounds.width as int
    } else {
        bounds.height as int
    };
    let across: int = if is_horizontal {
        bounds.height as int
    } else {
        bounds.width as int
    };
    &&& look.width <= across
    &&& look.fill_mode.starts_inside(along)
    &&& bounds.x + bounds.width <= i32::MAX
    &&& bounds.y + bounds.height <= i32::MAX
}

/// A line that has room can be painted, and lies inside the box it is painted
/// in.
pub proof fn lemma_line_stays_inside(is_horizontal: bool, look: Appearance, bounds: Rectangle)
    requires
        line_has_room(is_horizontal, look, bounds),
    ensures
        line_fits(is_horizontal, look, bounds),
        bounds.encloses(line_bounds(is_horizontal, look, bounds)),
{
    if is_horizontal {
        lemma_fill_is_bounded(look.fill_mode, bounds.width as int);
        lemma_fill_stays_inside(look.fill_mode, bounds.width as int);
    } else {
        lemma_fill_is_bounded(look.fill_mode, bounds.height as int);
        lemma_fill_stays_inside(look.fill_mode, bounds.height as int);
    }
}

/// Layout depends on nothing but the limits and the two intents of the rule:
/// laid out again within the same limits, or as another rule with the same
/// intents, a rule gets the same size.
pub proof fn lemma_layout_repeats<R: Renderer>(first: Rule<R>, second: Rule<R>, limits: Limits)
    where R::Theme: StyleSheet
    requires
        first.spec_width() == second.spec_width(),
        first.spec_height() == second.spec_height(),
    ensures
        first.size_within(limits) == second.size_within(limits),
{
}

fn centre(start: i32, room: u32, stroke: u16) -> (position: i64)
    ensures
        position == centred_start(start as int, room as int, stroke as int),
{
    let doubled: i64 = 2 * (start as i64) + (room as i64) - (stroke as i64);
    if doubled >= 0 {
        (doubled + 1) / 2
    } else {
        -((1 - doubled) / 2)
    }
}

fn line(is_horizontal: bool, look: Appearance, bounds: Rectangle) -> (line: (i64, i64, u32, u32))
    ensures
        line.0 == line_x(is_horizontal, look, bounds),
        line.1 == line_y(is_horizontal, look, bounds),
        line.2 == line_width(is_horizontal, look, bounds),
        line.3 == line_height(is_horizontal, look, bounds),
{
    if is_horizontal {
        let (offset, length) = look.fill_mode.fill(bounds.width);
        (
            bounds.x as i64 + offset as i64,
            centre(bounds.y, bounds.height, look.width),
            length,
            look.width as u32,
        )
    } else {
        let (offset, length) = look.fill_mode.fill(bounds.height);
        (
            centre(bounds.x, bounds.width, look.width),
            bounds.y as i64 + offset as i64,
            look.width as u32,
            length,
        )
    }
}

/// A horizontal or vertical rule that divides content.
pub struct Rule<R: Renderer> where R::Theme: StyleSheet {
    width: Length,
    height: Length,
    is_horizontal: bool,
    style: <R::Theme as StyleSheet>::Style,
}

impl<R: Renderer> Rule<R> where R::Theme: StyleSheet, <R::Theme as StyleSheet>::Style: Default {
    /// Creates a horizontal rule of the given height: it fills the width
    /// there is, and has the style that its style key has by default.
    pub fn horizontal(height: Pixels) -> (rule: Self)
        ensures
            rule.spec_is_horizontal(),
            rule.spec_width() == Length::Fill,
            rule.spec_height() == Length::Fixed(height.0),
            call_ensures(<R::Theme as StyleSheet>::Style::default, (), rule.spec_style()),
    {
        Rule {
            width: Length::Fill,
            height: Length::Fixed(height.0),
            is_horizontal: true,
            style: Default::default(),
        }
    }

    /// Creates a vertical rule of the given width: it fills the height there
    /// is, and has the style that its style key has by default.
    pub fn vertical(width: Pixels) -> (rule: Self)
        ensures
            !rule.spec_is_horizontal(),
            rule.spec_width() == Length::Fixed(width.0),
            rule.spec_height() == Length::Fill,
            call_ensures(<R::Theme as StyleSheet>::Style::default, (), rule.spec_style()),
    {
        Rule {
            width: Length::Fixed(width.0),
            height: Length::Fill,
            is_horizontal: false,
            style: Default::default(),
        }
    }
}

impl<R: Renderer> Rule<R> where R::Theme: StyleSheet {
    /// Whether the rule lies flat.
    pub closed spec fn spec_is_horizontal(self) -> bool {
        self.is_horizontal
    }

    /// The room the rule wants across.
    pub closed spec fn spec_width(self) -> Length {
        self.width
    }

    /// The room the rule wants down.
    pub closed spec fn spec_height(self) -> Length {
        self.height
    }

    /// The key of the rule's style.
    pub closed spec fn spec_style(self) -> <R::Theme as StyleSheet>::Style {
        self.style
    }

    /// Sets the style of the rule, and leaves the rest of it as it was.
    pub fn style(self, style: <R::Theme as StyleSheet>::Style) -> (rule: Self)
        ensures
            rule.spec_style() == style,
            rule.spec_is_horizontal() == self.spec_is_horizontal(),
            rule.spec_width() == self.spec_width(),
            rule.spec_height() == self.spec_height(),
    {
        let mut rule = self;
        rule.style = style;
        rule
    }
}

impl<R: Renderer> Widget<R> for Rule<R> where R::Theme: StyleSheet {
    type State = ();

    open spec fn width_intent(&self) -> Length {
        self.spec_width()
    }

    open spec fn height_intent(&self) -> Length {
        self.spec_height()
    }

    open spec fn size_within(&self, limits: Limits) -> Size {
        limits.resolved(self.spec_width(), self.spec_height(), Size { width: 0, height: 0 })
    }

    open spec fn paintable(&self, theme: &R::Theme, bounds: Rectangle) -> bool {
        line_fits(self.spec_is_horizontal(), theme.look(&self.spec_style()), bounds)
    }

    open spec fn painted(&self, theme: &R::Theme, bounds: Rectangle) -> Seq<(Quad, Color)> {
        seq![line_quad(self.spec_is_horizontal(), theme.look(&self.spec_style()), bounds)]
    }

    fn width(&self) -> (width: Length) {
        self.width
    }

    fn height(&self) -> (height: Length) {
        self.height
    }

    /// A rule has no children and no content: its size is what its two
    /// intents resolve to.
    fn layout(&self, renderer: &R, limits: &Limits) -> (node: Node)
        ensures
            node.spec_children() == Seq::<Node>::empty(),
            node.spec_bounds() == (Rectangle {
                x: 0,
                y: 0,
                width: self.size_within(*limits).width,
                height: self.size_within(*limits).height,
            }),
    {
        Node::new(limits.resolve(self.width, self.height, Size::zero()))
    }

    /// A rule can be painted where the corner of its line has coordinates
    /// that a [`Rectangle`] can hold.
    fn can_draw(&self, theme: &R::Theme, bounds: Rectangle) -> (ok: bool) {
        let style = theme.appearance(&self.style);
        let (line_x, line_y, _, _) = line(self.is_horizontal, style, bounds);
        let lowest: i64 = i32::MIN as i64;
        let highest: i64 = i32::MAX as i64;
        lowest <= line_x && line_x <= highest && lowest <= line_y && line_y <= highest
    }

    /// Hands the renderer one box: the line of the rule.
    fn draw(
        &self,
        state: &(),
        renderer: &mut R,
        theme: &R::Theme,
        bounds: Rectangle,
        viewport: &Rectangle,
    ) {
        let style = theme.appearance(&self.style);
        let (x, y, width, height) = line(self.is_horizontal, style, bounds);
        renderer.fill_quad(
            Quad {
                bounds: Rectangle { x: x as i32, y: y as i32, width, height },
                border_radius: style.radius,
                border_width: 0,
                border_color: Color::transparent(),
            },
            style.color,
        );
    }
}

} // verus!

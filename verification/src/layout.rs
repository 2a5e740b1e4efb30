//! Turning the room a widget asks for into the size it gets.

use vstd::prelude::*;
use crate::geometry::{Length, Rectangle, Size};

verus! {

/// `value` brought into the range from `low` to `high`.
pub open spec fn clamped(value: int, low: int, high: int) -> int {
    if value < low {
        low
    } else if value > high {
        high
    } else {
        value
    }
}

/// The pixels that one axis gets: `intent` is what the widget asks for,
/// `content` what its content needs, and `min` and `max` bound the answer.
/// A fixed length and a content length are clamped into the bounds; a widget
/// that fills takes all there is.
pub open spec fn resolved_axis(intent: Length, min: int, max: int, content: int) -> int {
    match intent {
        Length::Fill => max,
        Length::FillPortion(_) => max,
        Length::Shrink => clamped(content, min, max),
        Length::Fixed(pixels) => clamped(pixels as int, min, max),
    }
}

/// The least and the greatest size that a widget may take.
#[derive(Clone, Copy, Debug, PartialEq, Eq, Structural)]
pub struct Limits {
    min: Size,
    max: Size,
}

fn clamp(value: u32, low: u32, high: u32) -> (result: u32)
    requires
        low <= high,
    ensures
        result == clamped(value as int, low as int, high as int),
{
    if value < low {
        low
    } else if value > high {
        high
    } else {
        value
    }
}

impl Limits {
    /// The least size allowed.
    pub closed spec fn spec_min(&self) -> Size {
        self.min
    }

    /// The greatest size allowed.
    pub closed spec fn spec_max(&self) -> Size {
        self.max
    }

    /// On each axis the least size is no greater than the greatest.
    pub open spec fn wf(self) -> bool {
        &&& self.spec_min().width <= self.spec_max().width
        &&& self.spec_min().height <= self.spec_max().height
    }

    /// Whether `size` lies between the least and the greatest size allowed,
    /// on each axis.
    pub open spec fn holds(self, size: Size) -> bool {
        &&& self.spec_min().width <= size.width <= self.spec_max().width
        &&& self.spec_min().height <= size.height <= self.spec_max().height
    }

    /// The size that a widget gets which asks for `width` and `height` and
    /// whose content needs `content`.
    pub open spec fn resolved(self, width: Length, height: Length, content: Size) -> Size {
        Size {
            width: resolved_axis(
                width,
                self.spec_min().width as int,
                self.spec_max().width as int,
                content.width as int,
            ) as u32,
            height: resolved_axis(
                height,
                self.spec_min().height as int,
                self.spec_max().height as int,
                content.height as int,
            ) as u32,
        }
    }

    /// Returns the limits from `min` to `max`.
    pub fn new(min: Size, max: Size) -> (limits: Limits)
        requires
            min.width <= max.width,
            min.height <= max.height,
        ensures
            limits.wf(),
            limits.spec_min() == min,
            limits.spec_max() == max,
    {
        Limits { min, max }
    }

    /// Returns the least size allowed.
    #[verifier::when_used_as_spec(spec_min)]
    pub fn min(&self) -> (min: Size)
        ensures
            min == self.spec_min(),
    {
        self.min
    }

    /// Returns the greatest size allowed.
    #[verifier::when_used_as_spec(spec_max)]
    pub fn max(&self) -> (max: Size)
        ensures
            max == self.spec_max(),
    {
        self.max
    }

    /// Narrows the width to what `width` asks for: a fixed width leaves only
    /// that width, clamped into the limits; a filling one leaves only the
    /// greatest; one that shrinks leaves the limits as they are. The height is
    /// untouched.
    pub fn width(self, width: Length) -> (limits: Limits)
        requires
            self.wf(),
        ensures
            limits.wf(),
            limits.spec_min().height == self.spec_min().height,
            limits.spec_max().height == self.spec_max().height,
            limits.spec_min().width == resolved_axis(
                width,
                self.spec_min().width as int,
                self.spec_max().width as int,
                self.spec_min().width as int,
            ),
            limits.spec_max().width == resolved_axis(
                width,
                self.spec_min().width as int,
                self.spec_max().width as int,
                self.spec_max().width as int,
            ),
    {
        match width {
            Length::Shrink => self,
            Length::Fill | Length::FillPortion(_) => Limits {
                min: Size { width: self.max.width, height: self.min.height },
                max: self.max,
            },
            Length::Fixed(pixels) => {
                let exact: u32 = clamp(pixels, self.min.width, self.max.width);
                Limits {
                    min: Size { width: exact, height: self.min.height },
                    max: Size { width: exact, height: self.max.height },
                }
            },
        }
    }

    /// Narrows the height to what `height` asks for, as [`Limits::width`]
    /// does for the width. The width is untouched.
    pub fn height(self, height: Length) -> (limits: Limits)
        requires
            self.wf(),
        ensures
            limits.wf(),
            limits.spec_min().width == self.spec_min().width,
            limits.spec_max().width == self.spec_max().width,
            limits.spec_min().height == resolved_axis(
                height,
                self.spec_min().height as int,
                self.spec_max().height as int,
                self.spec_min().height as int,
            ),
            limits.spec_max().height == resolved_axis(
                height,
                self.spec_min().height as int,
                self.spec_max().height as int,
                self.spec_max().height as int,
            ),
    {
        match height {
            Length::Shrink => self,
            Length::Fill | Length::FillPortion(_) => Limits {
                min: Size { width: self.min.width, height: self.max.height },
                max: self.max,
            },
            Length::Fixed(pixels) => {
                let exact: u32 = clamp(pixels, self.min.height, self.max.height);
                Limits {
                    min: Size { width: self.min.width, height: exact },
                    max: Size { width: self.max.width, height: exact },
                }
            },
        }
    }

    /// Returns the size of a widget that asks for `width` and `height` and
    /// whose content needs `content`. Nothing is refused: what does not fit
    /// is clamped, so the size always lies within these limits.
    pub fn resolve(&self, width: Length, height: Length, content: Size) -> (size: Size)
        requires
            self.wf(),
        ensures
            size == self.resolved(width, height, content),
            self.holds(size),
    {
        let narrowed: Limits = self.width(width).height(height);
        Size {
            width: clamp(content.width, narrowed.min.width, narrowed.max.width),
            height: clamp(content.height, narrowed.min.height, narrowed.max.height),
        }
    }
}

/// Whatever a widget asks for and whatever its content needs, the size it
/// gets lies within the limits.
pub proof fn lemma_resolved_within_limits(
    limits: Limits,
    width: Length,
    height: Length,
    content: Size,
)
    requires
        limits.wf(),
    ensures
        limits.holds(limits.resolved(width, height, content)),
{
}

/// A fixed length that lies within the limits is granted as it is.
pub proof fn lemma_fixed_within_limits_is_kept(limits: Limits, width: u32, height: u32, content: Size)
    requires
        limits.holds(Size { width, height }),
    ensures
        limits.resolved(Length::Fixed(width), Length::Fixed(height), content) == (Size {
            width,
            height,
        }),
{
}

/// The geometry that layout gave a widget: its own box, measured from the
/// corner of its parent, and the nodes of its children, measured from its own
/// corner.
#[derive(Debug, PartialEq, Eq)]
pub struct Node {
    bounds: Rectangle,
    children: Vec<Node>,
}

impl Node {
    /// The box of this node.
    pub closed spec fn spec_bounds(self) -> Rectangle {
        self.bounds
    }

    /// The nodes of the children, in order.
    pub closed spec fn spec_children(self) -> Seq<Node> {
        self.children@
    }

    /// The size of this node.
    pub open spec fn spec_size(self) -> Size {
        Size { width: self.spec_bounds().width, height: self.spec_bounds().height }
    }

    /// Whether a child with box `child` stays inside a parent of size `size`.
    pub open spec fn fits(size: Size, child: Rectangle) -> bool {
        (Rectangle { x: 0, y: 0, width: size.width, height: size.height }).encloses(child)
    }

    /// No child reaches beyond the box of its parent, at any depth.
    pub closed spec fn wf(self) -> bool
        decreases self,
    {
        forall|i: int|
            0 <= i < self.children@.len() ==> {
                &&& Node::fits(self.spec_size(), (#[trigger] self.children@[i]).bounds)
                &&& self.children@[i].wf()
            }
    }

    /// Returns a node of the given size, at the corner of its parent, with no
    /// children.
    pub fn new(size: Size) -> (node: Node)
        ensures
            node.wf(),
            node.spec_bounds() == (Rectangle {
                x: 0,
                y: 0,
                width: size.width,
                height: size.height,
            }),
            node.spec_children() == Seq::<Node>::empty(),
    {
        Node { bounds: Rectangle::with_size(size), children: Vec::new() }
    }

    /// Returns a node of the given size, at the corner of its parent, that
    /// holds `children` in their order. Each child must itself be well formed
    /// and lie inside the node.
    pub fn with_children(size: Size, children: Vec<Node>) -> (node: Node)
        requires
            forall|i: int|
                0 <= i < children@.len() ==> {
                    &&& (#[trigger] children@[i]).wf()
                    &&& Node::fits(size, children@[i].spec_bounds())
                },
        ensures
            node.wf(),
            node.spec_bounds() == (Rectangle {
                x: 0,
                y: 0,
                width: size.width,
                height: size.height,
            }),
            node.spec_children() == children@,
    {
        Node { bounds: Rectangle::with_size(size), children }
    }

    /// Moves the node to `x` and `y`, measured from the corner of its parent.
    /// Its size and its children stay as they are.
    pub fn move_to(self, x: i32, y: i32) -> (node: Node)
        requires
            self.wf(),
        ensures
            node.wf(),
            node.spec_bounds() == (Rectangle {
                x,
                y,
                width: self.spec_bounds().width,
                height: self.spec_bounds().height,
            }),
            node.spec_children() == self.spec_children(),
    {
        let Node { bounds, children } = self;
        Node { bounds: Rectangle { x, y, width: bounds.width, height: bounds.height }, children }
    }

    /// Returns the box of this node.
    pub fn bounds(&self) -> (bounds: Rectangle)
        ensures
            bounds == self.spec_bounds(),
    {
        self.bounds
    }

    /// Returns the size of this node.
    pub fn size(&self) -> (size: Size)
        ensures
            size == self.spec_size(),
    {
        self.bounds.size()
    }

    /// Returns the nodes of the children, in order.
    pub fn children(&self) -> (children: &Vec<Node>)
        ensures
            children@ == self.spec_children(),
    {
        &self.children
    }

    /// A well-formed node holds well-formed children, each inside its box.
    pub proof fn lemma_children_fit(self, i: int)
        requires
            self.wf(),
            0 <= i < self.spec_children().len(),
        ensures
            self.spec_children()[i].wf(),
            Node::fits(self.spec_size(), self.spec_children()[i].spec_bounds()),
    {
    }
}

} // verus!

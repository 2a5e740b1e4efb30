//! Points, sizes, rectangles and the ways a widget may ask for room.

use vstd::prelude::*;

verus! {

/// A length in whole pixels.
#[derive(Clone, Copy, Debug, PartialEq, Eq, Structural)]
pub struct Pixels(pub u32);

impl From<u32> for Pixels {
    /// That many pixels.
    fn from(amount: u32) -> (pixels: Pixels) {
        Pixels(amount)
    }
}

impl vstd::std_specs::convert::FromSpecImpl<u32> for Pixels {
    open spec fn obeys_from_spec() -> bool {
        true
    }

    open spec fn from_spec(amount: u32) -> Pixels {
        Pixels(amount)
    }
}

impl From<u16> for Pixels {
    /// That many pixels.
    fn from(amount: u16) -> (pixels: Pixels) {
        Pixels(amount as u32)
    }
}

impl vstd::std_specs::convert::FromSpecImpl<u16> for Pixels {
    open spec fn obeys_from_spec() -> bool {
        true
    }

    open spec fn from_spec(amount: u16) -> Pixels {
        Pixels(amount as u32)
    }
}

/// How a widget wants to occupy one axis.
#[derive(Clone, Copy, Debug, PartialEq, Eq, Structural)]
pub enum Length {
    /// Take all the room there is.
    Fill,
    /// Take a share of the room, weighed against the other portions beside it.
    FillPortion(u16),
    /// Take no more room than the content needs.
    Shrink,
    /// Take this many pixels.
    Fixed(u32),
}

impl Length {
    /// A portion weighs at least one; every other intent is well formed as it is.
    pub open spec fn wf(self) -> bool {
        match self {
            Length::FillPortion(weight) => weight >= 1,
            _ => true,
        }
    }

    /// The weight with which this intent takes part when room is shared out:
    /// one for `Fill`, the stated weight for a portion, zero for the intents
    /// that do not fill.
    pub open spec fn spec_fill_factor(self) -> u16 {
        match self {
            Length::Fill => 1,
            Length::FillPortion(weight) => weight,
            Length::Shrink => 0,
            Length::Fixed(_) => 0,
        }
    }

    /// Returns the weight with which this intent shares out room.
    #[verifier::when_used_as_spec(spec_fill_factor)]
    pub fn fill_factor(self) -> (factor: u16)
        ensures
            factor == self.spec_fill_factor(),
            self.wf() ==> (factor == 0 <==> self is Shrink || self is Fixed),
    {
        match self {
            Length::Fill => 1,
            Length::FillPortion(weight) => weight,
            Length::Shrink => 0,
            Length::Fixed(_) => 0,
        }
    }
}

/// A position on the pixel grid.
#[derive(Clone, Copy, Debug, PartialEq, Eq, Structural)]
pub struct Point {
    pub x: i32,
    pub y: i32,
}

impl Point {
    /// Returns the origin of the grid.
    pub fn origin() -> (point: Point)
        ensures
            point == (Point { x: 0, y: 0 }),
    {
        Point { x: 0, y: 0 }
    }

    /// Returns the point with the given coordinates.
    pub fn new(x: i32, y: i32) -> (point: Point)
        ensures
            point == (Point { x, y }),
    {
        Point { x, y }
    }
}

/// A width and a height, neither of them negative.
#[derive(Clone, Copy, Debug, PartialEq, Eq, Structural)]
pub struct Size {
    pub width: u32,
    pub height: u32,
}

impl Size {
    /// Returns the size with no width and no height.
    pub fn zero() -> (size: Size)
        ensures
            size == (Size { width: 0, height: 0 }),
    {
        Size { width: 0, height: 0 }
    }

    /// Returns the size with the given width and height.
    pub fn new(width: u32, height: u32) -> (size: Size)
        ensures
            size == (Size { width, height }),
    {
        Size { width, height }
    }
}

/// An axis-aligned box: its top-left corner and its extent.
#[derive(Clone, Copy, Debug, PartialEq, Eq, Structural)]
pub struct Rectangle {
    pub x: i32,
    pub y: i32,
    pub width: u32,
    pub height: u32,
}

impl Rectangle {
    /// Returns the rectangle with the given corner and extent.
    pub fn new(position: Point, size: Size) -> (rectangle: Rectangle)
        ensures
            rectangle == (Rectangle {
                x: position.x,
                y: position.y,
                width: size.width,
                height: size.height,
            }),
    {
        Rectangle { x: position.x, y: position.y, width: size.width, height: size.height }
    }

    /// Returns the rectangle of the given extent whose corner is the origin.
    pub fn with_size(size: Size) -> (rectangle: Rectangle)
        ensures
            rectangle == (Rectangle { x: 0, y: 0, width: size.width, height: size.height }),
    {
        Rectangle { x: 0, y: 0, width: size.width, height: size.height }
    }

    /// Returns the top-left corner.
    pub fn position(&self) -> (point: Point)
        ensures
            point == (Point { x: self.x, y: self.y }),
    {
        Point { x: self.x, y: self.y }
    }

    /// Returns the extent.
    pub fn size(&self) -> (size: Size)
        ensures
            size == (Size { width: self.width, height: self.height }),
    {
        Size { width: self.width, height: self.height }
    }

    /// Whether `inner` lies wholly inside this rectangle, edges included.
    pub open spec fn encloses(self, inner: Rectangle) -> bool {
        &&& self.x <= inner.x
        &&& self.y <= inner.y
        &&& inner.x + inner.width <= self.x + self.width
        &&& inner.y + inner.height <= self.y + self.height
    }
}

/// A colour with eight bits for each of red, green, blue and opacity.
#[derive(Clone, Copy, Debug, PartialEq, Eq, Structural)]
pub struct Color {
    pub r: u8,
    pub g: u8,
    pub b: u8,
    pub a: u8,
}

impl Color {
    /// Returns the colour that leaves what lies beneath untouched.
    pub fn transparent() -> (color: Color)
        ensures
            color == (Color { r: 0, g: 0, b: 0, a: 0 }),
    {
        Color { r: 0, g: 0, b: 0, a: 0 }
    }

    /// Returns the opaque colour with the given channels.
    pub fn from_rgb(r: u8, g: u8, b: u8) -> (color: Color)
        ensures
            color == (Color { r, g, b, a: 255 }),
    {
        Color { r, g, b, a: 255 }
    }
}

} // verus!

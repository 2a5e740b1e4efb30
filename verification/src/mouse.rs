//! What a pointing device can tell a widget.

use vstd::prelude::*;
use crate::geometry::Point;

verus! {

/// A button of a pointing device.
#[derive(Clone, Copy, Debug, PartialEq, Eq, Hash, Structural)]
pub enum Button {
    /// The left button.
    Left,
    /// The right button.
    Right,
    /// The middle button, or the wheel when it is pressed.
    Middle,
    /// Any other button, by the number the device gives it.
    Other(u16),
}

/// How far a wheel or a touch surface scrolled, in the unit that the device
/// reports.
#[derive(Clone, Copy, Debug, PartialEq, Eq, Structural)]
pub enum ScrollDelta {
    /// A distance in lines, as a wheel with notches reports it.
    Lines {
        /// Lines scrolled across.
        x: i32,
        /// Lines scrolled down.
        y: i32,
    },
    /// A distance in pixels, as a touch surface reports it.
    Pixels {
        /// Pixels scrolled across.
        x: i32,
        /// Pixels scrolled down.
        y: i32,
    },
}

/// One thing that happened to the pointer.
#[derive(Clone, Copy, Debug, PartialEq, Eq, Structural)]
pub enum Event {
    /// The pointer came into the window.
    CursorEntered,
    /// The pointer left the window.
    CursorLeft,
    /// The pointer moved.
    CursorMoved {
        /// How far across the pointer is now.
        x: i32,
        /// How far down the pointer is now.
        y: i32,
    },
    /// A button went down.
    ButtonPressed(Button),
    /// A button came up.
    ButtonReleased(Button),
    /// The wheel turned, or a touch surface was scrolled.
    WheelScrolled(ScrollDelta),
}

/// A click that was recognised: which button, where, and the how-manieth
/// click in a row it was.
#[derive(Clone, Copy, Debug, PartialEq, Eq, Structural)]
pub struct Click {
    /// The button that was clicked.
    pub button: Button,
    /// Where the pointer was.
    pub position: Point,
    /// One for a single click, two for a double click, and so on.
    pub count: u8,
}

/// The shape that a widget asks the pointer to take.
#[derive(Clone, Copy, Debug, PartialEq, Eq, Hash, Structural)]
pub enum Interaction {
    /// Nothing to do here: the plain arrow.
    Idle,
    /// Something to press.
    Pointer,
    /// Something that can be grabbed.
    Grab,
    /// Text that can be edited or selected.
    Text,
    /// A place to pick with precision.
    Crosshair,
    /// The program is busy.
    Working,
    /// Something is held.
    Grabbing,
    /// An edge that can be dragged left and right.
    ResizingHorizontally,
    /// An edge that can be dragged up and down.
    ResizingVertically,
}

impl Default for Interaction {
    /// The shape of a pointer that no widget has asked anything of.
    fn default() -> (interaction: Interaction)
        ensures
            interaction == Interaction::Idle,
    {
        Interaction::Idle
    }
}

} // verus!

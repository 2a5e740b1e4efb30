//! What a rule looks like: its colour, its stroke, and how much of its box
//! the line fills.

use vstd::prelude::*;
use crate::geometry::Color;

verus! {

/// How much of the room along a rule its line takes, and where the line starts.
#[derive(Clone, Copy, Debug, PartialEq, Eq, Structural)]
pub enum FillMode {
    /// The line runs from one end of the room to the other.
    Full,
    /// The line takes this many hundredths of the room and sits in the middle.
    /// A hundred or more fills the room.
    Percent(u8),
    /// The same gap, in pixels, is left before and after the line.
    Padded(u16),
    /// One gap is left before the line and another after it, both in pixels.
    AsymmetricPadding(u16, u16),
}

/// The whole number of pixels nearest to `percent` hundredths of `space`;
/// of two that are equally near, the larger.
pub open spec fn percent_length(space: int, percent: int) -> int {
    (space * percent + 50) / 100
}

/// Where a line of `length` pixels starts when it is centred in `space`
/// pixels: half of what is left over, an odd pixel going before the line.
pub open spec fn centred_offset(space: int, length: int) -> int {
    (space - length + 1) / 2
}

/// `value`, or zero where it is negative.
pub open spec fn at_least_zero(value: int) -> int {
    if value < 0 {
        0
    } else {
        value
    }
}

impl FillMode {
    /// The length of the line drawn in `space` pixels of room.
    pub open spec fn fill_length(self, space: int) -> int {
        match self {
            FillMode::Full => space,
            FillMode::Percent(percent) => if percent >= 100 {
                space
            } else {
                percent_length(space, percent as int)
            },
            FillMode::Padded(padding) => at_least_zero(space - 2 * padding),
            FillMode::AsymmetricPadding(before, after) => at_least_zero(space - before - after),
        }
    }

    /// How far from the start of `space` pixels of room the line begins.
    pub open spec fn fill_offset(self, space: int) -> int {
        match self {
            FillMode::Full => 0,
            FillMode::Percent(_) => centred_offset(space, self.fill_length(space)),
            FillMode::Padded(padding) => padding as int,
            FillMode::AsymmetricPadding(before, _) => before as int,
        }
    }

    /// Returns where the line starts and how long it is, in that order, for
    /// `space` pixels of room. A padding that leaves no room gives a line of
    /// length zero.
    pub fn fill(&self, space: u32) -> (segment: (u32, u32))
        ensures
            segment.0 == self.fill_offset(space as int),
            segment.1 == self.fill_length(space as int),
    {
        match *self {
            FillMode::Full => (0, space),
            FillMode::Percent(percent) => {
                if percent >= 100 {
                    (0, space)
                } else {
                    assert(0 <= space * percent <= space * 99) by (nonlinear_arith)
                        requires
                            0 <= space,
                            0 <= percent <= 99,
                    ;
                    let scaled: u64 = space as u64 * percent as u64 + 50;
                    let length: u64 = scaled / 100;
                    let offset: u64 = (space as u64 - length + 1) / 2;
                    (offset as u32, length as u32)
                }
            },
            FillMode::Padded(padding) => {
                let gaps: u32 = 2 * padding as u32;
                let length: u32 = if space >= gaps {
                    space - gaps
                } else {
                    0
                };
                (padding as u32, length)
            },
            FillMode::AsymmetricPadding(before, after) => {
                let gaps: u32 = before as u32 + after as u32;
                let length: u32 = if space >= gaps {
                    space - gaps
                } else {
                    0
                };
                (before as u32, length)
            },
        }
    }
}

/// A line is never longer than the room it is drawn in, and neither its
/// length nor its offset is negative.
pub proof fn lemma_fill_is_bounded(mode: FillMode, space: int)
    requires
        0 <= space,
    ensures
        0 <= mode.fill_length(space) <= space,
        0 <= mode.fill_offset(space),
{
    if let FillMode::Percent(percent) = mode {
        if percent < 100 {
            lemma_percent_is_nearest(percent, space);
        }
    }
}

/// A full line starts where the room starts and is as long as the room.
pub proof fn lemma_full_takes_all(space: int)
    ensures
        FillMode::Full.fill_offset(space) == 0,
        FillMode::Full.fill_length(space) == space,
{
}

/// No hundredths give a line of length zero; a hundred hundredths, or more,
/// give the full line.
pub proof fn lemma_percent_at_the_ends(percent: u8, space: int)
    requires
        0 <= space,
    ensures
        percent == 0 ==> FillMode::Percent(percent).fill_length(space) == 0,
        percent == 0 ==> 0 <= FillMode::Percent(percent).fill_offset(space) <= space,
        percent >= 100 ==> FillMode::Percent(percent).fill_length(space) == space,
        percent >= 100 ==> FillMode::Percent(percent).fill_offset(space) == 0,
{
}

/// Below a hundred, the length of a percent line is the whole number nearest
/// to that many hundredths of the room, and the line is centred: the gap
/// before it is the gap after it, or one pixel more.
pub proof fn lemma_percent_is_nearest(percent: u8, space: int)
    requires
        0 <= space,
        percent < 100,
    ensures
        -50 < 100 * FillMode::Percent(percent).fill_length(space) - space * percent <= 50,
        0 <= FillMode::Percent(percent).fill_length(space) <= space,
        0 <= 2 * FillMode::Percent(percent).fill_offset(space) - (space
            - FillMode::Percent(percent).fill_length(space)) <= 1,
{
    assert(0 <= space * percent <= space * 99) by (nonlinear_arith)
        requires
            0 <= space,
            0 <= percent <= 99,
    ;
}

impl FillMode {
    /// Whether the line begins inside `space` pixels of room: true of a full
    /// and of a percent line, and of a padded one whose first gap is no wider
    /// than the room.
    pub open spec fn starts_inside(self, space: int) -> bool {
        match self {
            FillMode::Full => true,
            FillMode::Percent(_) => true,
            FillMode::Padded(padding) => padding <= space,
            FillMode::AsymmetricPadding(before, _) => before <= space,
        }
    }
}

/// A line ends inside its room exactly when it begins inside it: offset and
/// length together are no more than the room, unless the first gap of a
/// padded line is already wider than the room.
pub proof fn lemma_fill_stays_inside(mode: FillMode, space: int)
    requires
        0 <= space,
    ensures
        mode.fill_offset(space) + mode.fill_length(space) <= space <==> mode.starts_inside(space),
{
    if let FillMode::Percent(percent) = mode {
        if percent < 100 {
            lemma_percent_is_nearest(percent, space);
        }
    }
}

/// A padded line is what the gaps leave of the room, where they leave
/// anything, and starts after the first gap.
pub proof fn lemma_padding_leaves_the_rest(before: u16, after: u16, space: int)
    requires
        before + after <= space,
    ensures
        FillMode::AsymmetricPadding(before, after).fill_offset(space) == before,
        FillMode::AsymmetricPadding(before, after).fill_length(space) == space - before - after,
        before == after ==> FillMode::Padded(before).fill_offset(space) == before,
        before == after ==> FillMode::Padded(before).fill_length(space) == space - 2 * before,
{
}

/// The look of a rule.
#[derive(Clone, Copy, Debug, PartialEq, Eq, Structural)]
pub struct Appearance {
    /// The colour of the line.
    pub color: Color,
    /// The thickness of the line, in pixels.
    pub width: u16,
    /// The radius of the line's corners, in pixels.
    pub radius: u16,
    /// How much of the rule's box the line fills.
    pub fill_mode: FillMode,
}

/// A set of rules that gives every style key the look it stands for.
pub trait StyleSheet {
    /// The key by which a look is chosen.
    type Style;

    /// The look that belongs to `style`.
    spec fn look(&self, style: &Self::Style) -> Appearance;

    /// Returns the look that belongs to `style`: always one, and for one key
    /// always the same.
    fn appearance(&self, style: &Self::Style) -> (appearance: Appearance)
        ensures
            appearance == self.look(style),
    ;
}

} // verus!

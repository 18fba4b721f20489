//! Screen geometry: rectangles of terminal cells and how a rectangle is
//! divided.
//!
//! Dividing is done by the layout solver of the terminal library. What it
//! returns is taken as it comes: this crate relies only on how many parts
//! there are and on the side that a division leaves alone.

use ratatui::layout::Constraint as Wanted;
use ratatui::layout::Direction as Along;
use ratatui::layout::{Layout, Rect};
use ratatui::widgets::{Block, Padding};
use vstd::prelude::*;

verus! {

/// A rectangle of terminal cells.
#[derive(Clone, Copy, Debug, PartialEq, Eq, Structural)]
pub struct Area {
    pub x: u16,
    pub y: u16,
    pub width: u16,
    pub height: u16,
}

/// One terminal cell: a column and a row.
#[derive(Clone, Copy, Debug, PartialEq, Eq, Structural)]
pub struct Position {
    pub x: u16,
    pub y: u16,
}

/// The side along which a rectangle is divided.
#[derive(Clone, Copy, Debug, PartialEq, Eq, Structural)]
pub enum Direction {
    /// Parts lie side by side.
    Horizontal,
    /// Parts lie one under the other.
    Vertical,
}

/// What is asked of one part of a division.
#[derive(Clone, Copy, Debug, PartialEq, Eq, Structural)]
pub enum Constraint {
    /// Exactly so many cells.
    Length(u16),
    /// At least so many cells.
    Min(u16),
    /// At most so many cells.
    Max(u16),
    /// A share of the whole, as numerator and denominator.
    Ratio(u32, u32),
    /// What is left over, shared by weight.
    Fill(u16),
}

/// A division leaves the other side of the rectangle alone: parts that
/// lie one under the other are as wide as the whole and start at its left
/// edge; parts that lie side by side are as high as the whole and start at
/// its top.
pub open spec fn spans(part: Area, whole: Area, direction: Direction) -> bool {
    match direction {
        Direction::Vertical => part.x == whole.x && part.width == whole.width,
        Direction::Horizontal => part.y == whole.y && part.height == whole.height,
    }
}

/// A part of a division does not reach beyond the two ends of the side
/// that is divided: it starts at or after the near edge of the whole and
/// ends at or before its far edge. The far edge of a rectangle that runs
/// off the largest coordinate counts as that coordinate.
pub open spec fn within(part: Area, whole: Area, direction: Direction) -> bool {
    match direction {
        Direction::Horizontal => whole.x <= part.x && part.x + part.width <= cap(
            whole.x + whole.width,
        ),
        Direction::Vertical => whole.y <= part.y && part.y + part.height <= cap(
            whole.y + whole.height,
        ),
    }
}

/// `n` brought into the range of a cell coordinate.
pub open spec fn cap(n: int) -> u16 {
    if n < 0 {
        0
    } else if n > u16::MAX {
        u16::MAX
    } else {
        n as u16
    }
}

/// The smaller of two coordinates.
pub open spec fn least(a: u16, b: u16) -> u16 {
    if a < b {
        a
    } else {
        b
    }
}

/// What a border of one cell on every side, and `padding` more cells on
/// the left and on the right, leave of `area`. Nothing is ever less than
/// zero or more than a coordinate can hold, and the inside never starts
/// beyond the far edge of `area`.
pub open spec fn inside(area: Area, padding: u16) -> Area {
    Area {
        x: cap(least(cap(area.x + 1), cap(area.x + area.width)) + padding),
        y: least(cap(area.y + 1), cap(area.y + area.height)),
        width: cap(area.width - 2 - 2 * padding),
        height: cap(area.height - 2),
    }
}

/// The inside of a bordered block drawn on `area`, with `padding` cells
/// left free on the left and on the right.
///
/// Trusted: states of `ratatui::widgets::Block::inner`, on a block made by
/// `Block::bordered` and padded with `Padding::horizontal`, that it
/// returns `inside(area, padding)`. The padding of both sides is added up
/// as a coordinate, so it is kept to half of the largest one.
#[verifier::external_body]
pub(crate) fn inner(area: Area, padding: u16) -> (r: Area)
    requires
        2 * padding <= u16::MAX,
    ensures
        r == inside(area, padding),
{
    let block = Block::bordered().padding(Padding::horizontal(padding));
    let r = block.inner(Rect { x: area.x, y: area.y, width: area.width, height: area.height });
    Area { x: r.x, y: r.y, width: r.width, height: r.height }
}

/// Divides `area` along `direction`, one part for each constraint.
///
/// Trusted: states of `ratatui::layout::Layout::split`, on a layout made by
/// `Layout::new` with no margin and no spacing, that it returns one
/// rectangle for each constraint, that each one spans the undivided side
/// of `area`, and that none reaches beyond the ends of the divided side:
/// the solver is required to keep both ends of every part between the
/// edges of `area`. Nothing else is stated of where the solver puts the
/// parts along the divided side. Direction and constraints are handed to
/// the solver under the names that they have here.
#[verifier::external_body]
pub(crate) fn split(direction: Direction, constraints: &Vec<Constraint>, area: Area) -> (parts:
    Vec<Area>)
    ensures
        parts@.len() == constraints@.len(),
        forall|i: int| 0 <= i < parts@.len() ==> spans(#[trigger] parts@[i], area, direction),
        forall|i: int| 0 <= i < parts@.len() ==> within(#[trigger] parts@[i], area, direction),
{
    let wanted = constraints.iter().map(|c| match *c {
        Constraint::Length(n) => Wanted::Length(n),
        Constraint::Min(n) => Wanted::Min(n),
        Constraint::Max(n) => Wanted::Max(n),
        Constraint::Ratio(n, d) => Wanted::Ratio(n, d),
        Constraint::Fill(n) => Wanted::Fill(n),
    });
    let along = match direction {
        Direction::Horizontal => Along::Horizontal,
        Direction::Vertical => Along::Vertical,
    };
    Layout::new(along, wanted)
        .split(Rect { x: area.x, y: area.y, width: area.width, height: area.height })
        .iter().map(|r| Area { x: r.x, y: r.y, width: r.width, height: r.height }).collect()
}

} // verus!

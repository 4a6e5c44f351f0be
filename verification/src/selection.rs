//! The selection rectangle: the part of the screen that the next zoom will show.

use vstd::prelude::*;

use crate::viewport::Resolution;

verus! {

/// The number of pixels that one step moves the selection.
pub const ZOOM_VEL: u32 = 3;

/// The direction of a step.
#[derive(Clone, Copy, Debug, PartialEq, Eq, Structural)]
pub enum Direction {
    Left,
    Right,
    Up,
    Down,
}

/// A rectangle in pixel coordinates, each axis with its lower and upper bound.
#[derive(Clone, Copy, Debug, PartialEq, Eq, Structural)]
pub struct SelectionRect {
    pub min_x: u32,
    pub max_x: u32,
    pub min_y: u32,
    pub max_y: u32,
}

/// The bounds of one axis after a step towards zero: both move by `ZOOM_VEL`, unless the
/// lower bound would pass zero.
pub open spec fn spec_shift_back(min: u32, max: u32) -> (u32, u32) {
    if min >= ZOOM_VEL {
        ((min - ZOOM_VEL) as u32, (max - ZOOM_VEL) as u32)
    } else {
        (min, max)
    }
}

/// The bounds of one axis of `extent` pixels after a step away from zero: both move by
/// `ZOOM_VEL` while the upper bound stays below the last pixel.
pub open spec fn spec_shift_forward(min: u32, max: u32, extent: u32) -> (u32, u32) {
    if max + ZOOM_VEL < extent - 1 {
        ((min + ZOOM_VEL) as u32, (max + ZOOM_VEL) as u32)
    } else {
        (min, max)
    }
}

fn shift_back(min: u32, max: u32) -> (r: (u32, u32))
    requires
        min <= max,
    ensures
        r == spec_shift_back(min, max),
{
    if min >= ZOOM_VEL {
        (min - ZOOM_VEL, max - ZOOM_VEL)
    } else {
        (min, max)
    }
}

fn shift_forward(min: u32, max: u32, extent: u32) -> (r: (u32, u32))
    requires
        min <= max,
    ensures
        r == spec_shift_forward(min, max, extent),
{
    if extent >= 1 && max <= extent - 1 && extent - 1 - max > ZOOM_VEL {
        (min + ZOOM_VEL, max + ZOOM_VEL)
    } else {
        (min, max)
    }
}

impl SelectionRect {
    /// Whether the rectangle is not empty and lies on a screen of this resolution.
    pub open spec fn fits(self, resolution: Resolution) -> bool {
        &&& self.min_x < self.max_x <= resolution.width - 1
        &&& self.min_y < self.max_y <= resolution.height - 1
    }

    /// The rectangle that a session starts with: from the origin over one eighth of each
    /// axis.
    pub open spec fn spec_initial(resolution: Resolution) -> SelectionRect {
        SelectionRect {
            min_x: 0,
            max_x: resolution.width / 8,
            min_y: 0,
            max_y: resolution.height / 8,
        }
    }

    /// Returns the rectangle that a session starts with. It fits the screen when both axes
    /// have at least eight pixels.
    pub fn initial(resolution: Resolution) -> (r: SelectionRect)
        ensures
            r == Self::spec_initial(resolution),
            r.fits(resolution) <==> resolution.width >= 8 && resolution.height >= 8,
    {
        SelectionRect {
            min_x: 0,
            max_x: resolution.width / 8,
            min_y: 0,
            max_y: resolution.height / 8,
        }
    }

    /// The rectangle after one step: left and right move the horizontal pair, up and down
    /// the vertical pair, and a step that would leave the screen moves nothing.
    pub open spec fn spec_step(self, direction: Direction, resolution: Resolution) -> SelectionRect {
        match direction {
            Direction::Left => {
                let (min, max) = spec_shift_back(self.min_x, self.max_x);
                SelectionRect { min_x: min, max_x: max, ..self }
            },
            Direction::Right => {
                let (min, max) = spec_shift_forward(self.min_x, self.max_x, resolution.width);
                SelectionRect { min_x: min, max_x: max, ..self }
            },
            Direction::Up => {
                let (min, max) = spec_shift_back(self.min_y, self.max_y);
                SelectionRect { min_y: min, max_y: max, ..self }
            },
            Direction::Down => {
                let (min, max) = spec_shift_forward(self.min_y, self.max_y, resolution.height);
                SelectionRect { min_y: min, max_y: max, ..self }
            },
        }
    }

    /// Moves the rectangle one step. The rectangle keeps its size and stays on the screen.
    pub fn step(self, direction: Direction, resolution: Resolution) -> (r: SelectionRect)
        requires
            self.fits(resolution),
        ensures
            r == self.spec_step(direction, resolution),
            r.fits(resolution),
            r.max_x - r.min_x == self.max_x - self.min_x,
            r.max_y - r.min_y == self.max_y - self.min_y,
    {
        match direction {
            Direction::Left => {
                let (min, max) = shift_back(self.min_x, self.max_x);
                SelectionRect { min_x: min, max_x: max, min_y: self.min_y, max_y: self.max_y }
            },
            Direction::Right => {
                let (min, max) = shift_forward(self.min_x, self.max_x, resolution.width);
                SelectionRect { min_x: min, max_x: max, min_y: self.min_y, max_y: self.max_y }
            },
            Direction::Up => {
                let (min, max) = shift_back(self.min_y, self.max_y);
                SelectionRect { min_x: self.min_x, max_x: self.max_x, min_y: min, max_y: max }
            },
            Direction::Down => {
                let (min, max) = shift_forward(self.min_y, self.max_y, resolution.height);
                SelectionRect { min_x: self.min_x, max_x: self.max_x, min_y: min, max_y: max }
            },
        }
    }
}

} // verus!

use vstd::prelude::*;

use crate::constants::{CONTACT_DISTANCE, N_CELLS};

verus! {

/// A cell of the grid.
#[derive(Debug, Clone, Copy, PartialEq, Eq, Structural)]
pub struct Position {
    pub x: usize,
    pub y: usize,
}

/// Displacement of one step along each axis.
#[derive(Debug, Clone, Copy, PartialEq, Eq, Structural)]
pub struct Direction {
    pub x: i32,
    pub y: i32,
}

/// Whether the position lies on the grid.
pub open spec fn in_grid(p: Position) -> bool {
    p.x < N_CELLS && p.y < N_CELLS
}

/// Whether a step component is -1, 0 or 1.
pub open spec fn is_unit(v: i32) -> bool {
    -1 <= v <= 1
}

impl Direction {
    /// Each component is -1, 0 or 1.
    pub open spec fn wf(self) -> bool {
        is_unit(self.x) && is_unit(self.y)
    }

    /// One of the eight compass directions: a unit step that is not (0, 0).
    pub open spec fn is_compass(self) -> bool {
        self.wf() && !(self.x == 0 && self.y == 0)
    }

    /// The reversed direction.
    pub open spec fn reversed(self) -> Direction {
        Direction { x: (-self.x) as i32, y: (-self.y) as i32 }
    }
}

/// Distance between two coordinates.
pub open spec fn gap(a: usize, b: usize) -> nat {
    if a >= b {
        (a - b) as nat
    } else {
        (b - a) as nat
    }
}

/// Chebyshev distance between two positions.
pub open spec fn chebyshev(p: Position, q: Position) -> nat {
    if gap(p.x, q.x) >= gap(p.y, q.y) {
        gap(p.x, q.x)
    } else {
        gap(p.y, q.y)
    }
}

/// Whether entities standing on the two positions are in contact.
pub open spec fn within_contact(p: Position, q: Position) -> bool {
    chebyshev(p, q) <= CONTACT_DISTANCE
}

/// The cell halfway between two positions, each coordinate rounded down.
pub open spec fn midpoint(p: Position, q: Position) -> Position {
    Position { x: ((p.x + q.x) / 2) as usize, y: ((p.y + q.y) / 2) as usize }
}

/// Contact detection does not depend on which of the two entities asks.
pub proof fn lemma_contact_symmetric(p: Position, q: Position)
    ensures
        chebyshev(p, q) == chebyshev(q, p),
        within_contact(p, q) == within_contact(q, p),
{
}

/// Whether two positions are in contact.
pub fn is_within_contact(p: Position, q: Position) -> (r: bool)
    ensures
        r == within_contact(p, q),
{
    let dx = if p.x >= q.x {
        p.x - q.x
    } else {
        q.x - p.x
    };
    let dy = if p.y >= q.y {
        p.y - q.y
    } else {
        q.y - p.y
    };
    let d = if dx >= dy {
        dx
    } else {
        dy
    };
    d <= CONTACT_DISTANCE
}

} // verus!

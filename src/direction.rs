use vstd::prelude::*;

verus! {

/// A heading of the snake.
#[derive(Clone, Copy, Debug, PartialEq, Eq, Structural)]
pub enum Direction {
    Left,
    Up,
    Right,
    Down,
}

/// The directional keys held during one frame.
#[derive(Clone, Copy, Debug, PartialEq, Eq, Structural)]
pub struct HeldKeys {
    pub left: bool,
    pub up: bool,
    pub right: bool,
    pub down: bool,
}

impl Direction {
    pub open spec fn spec_opposite(self) -> Direction {
        match self {
            Direction::Left => Direction::Right,
            Direction::Right => Direction::Left,
            Direction::Up => Direction::Down,
            Direction::Down => Direction::Up,
        }
    }

    /// The heading that points the other way.
    pub fn opposite(self) -> (r: Direction)
        ensures
            r == self.spec_opposite(),
    {
        match self {
            Direction::Left => Direction::Right,
            Direction::Right => Direction::Left,
            Direction::Up => Direction::Down,
            Direction::Down => Direction::Up,
        }
    }

    /// Horizontal part of the unit step in this direction.
    pub open spec fn dx(self) -> int {
        match self {
            Direction::Left => -1,
            Direction::Right => 1,
            _ => 0,
        }
    }

    /// Vertical part of the unit step in this direction.
    pub open spec fn dy(self) -> int {
        match self {
            Direction::Up => 1,
            Direction::Down => -1,
            _ => 0,
        }
    }

    /// The heading adopted when `requested` is asked for while heading `self`.
    pub open spec fn spec_arbitrate(self, requested: Direction) -> Direction {
        if requested != self.spec_opposite() {
            requested
        } else {
            self
        }
    }

    /// Adopts `requested` unless it would reverse the current heading.
    pub fn arbitrate(self, requested: Direction) -> (r: Direction)
        ensures
            r == self.spec_arbitrate(requested),
            r != self.spec_opposite(),
    {
        if requested != self.opposite() {
            requested
        } else {
            self
        }
    }
}

/// Taking the opposite twice gives the heading back.
pub proof fn lemma_opposite_involution(d: Direction)
    ensures
        d.spec_opposite().spec_opposite() == d,
        d.spec_opposite() != d,
{
}

impl HeldKeys {
    /// The direction that the held keys ask for: the first held of Left,
    /// Down, Up and Right, or none.
    pub open spec fn spec_requested(self) -> Option<Direction> {
        if self.left {
            Some(Direction::Left)
        } else if self.down {
            Some(Direction::Down)
        } else if self.up {
            Some(Direction::Up)
        } else if self.right {
            Some(Direction::Right)
        } else {
            None
        }
    }

    pub fn requested(&self) -> (r: Option<Direction>)
        ensures
            r == self.spec_requested(),
    {
        if self.left {
            Some(Direction::Left)
        } else if self.down {
            Some(Direction::Down)
        } else if self.up {
            Some(Direction::Up)
        } else if self.right {
            Some(Direction::Right)
        } else {
            None
        }
    }
}

} // verus!

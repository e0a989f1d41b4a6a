use rand::Rng;
use vstd::prelude::*;

verus! {

/// Number of columns of the grid.
pub const ARENA_WIDTH: i32 = 10;

/// Number of rows of the grid.
pub const ARENA_HEIGHT: i32 = 10;

/// A cell of the grid, or one step beyond its border.
#[derive(Clone, Copy, Debug, PartialEq, Eq, Structural)]
pub struct Position {
    pub x: i32,
    pub y: i32,
}

impl Position {
    pub fn new(x: i32, y: i32) -> (r: Position)
        ensures
            r.x == x,
            r.y == y,
    {
        Position { x, y }
    }

    /// The cell lies inside the grid.
    pub open spec fn in_bounds(self) -> bool {
        0 <= self.x < ARENA_WIDTH && 0 <= self.y < ARENA_HEIGHT
    }

    pub fn is_in_bounds(&self) -> (r: bool)
        ensures
            r == self.in_bounds(),
    {
        0 <= self.x && self.x < ARENA_WIDTH && 0 <= self.y && self.y < ARENA_HEIGHT
    }
}

/// Every position of the sequence lies inside the grid.
pub open spec fn all_in_bounds(s: Seq<Position>) -> bool {
    forall|i: int| 0 <= i < s.len() ==> (#[trigger] s[i]).in_bounds()
}

/// Whether `p` occurs in `v`.
pub fn contains(v: &Vec<Position>, p: Position) -> (r: bool)
    ensures
        r == v@.contains(p),
{
    let mut i: usize = 0;
    while i < v.len()
        invariant
            i <= v.len(),
            forall|j: int| 0 <= j < i ==> v@[j] != p,
        decreases v.len() - i,
    {
        if v[i] == p {
            return true;
        }
        i = i + 1;
    }
    false
}


/// Relies on rand::thread_rng and rand::Rng::gen_range: a value drawn
/// uniformly from `0..bound`. gen_range panics on an empty range.
#[verifier::external_body]
fn random_below(bound: i32) -> (r: i32)
    requires
        0 < bound,
    ensures
        0 <= r < bound,
{
    rand::thread_rng().gen_range(0..bound)
}

/// A cell of the grid drawn at random, each column and each row alike.
pub fn random_position() -> (r: Position)
    ensures
        r.in_bounds(),
{
    let x = random_below(ARENA_WIDTH);
    let y = random_below(ARENA_HEIGHT);
    Position { x, y }
}

} // verus!

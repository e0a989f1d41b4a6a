use vstd::prelude::*;

use crate::direction::{Direction, HeldKeys};
use crate::grid::{all_in_bounds, contains, random_position, Position};

verus! {

/// The state of a round, as values.
pub ghost struct GameView {
    /// Cells of the snake, head first.
    pub chain: Seq<Position>,
    pub heading: Direction,
    pub foods: Seq<Position>,
    /// Cell that the tail left in the latest movement tick.
    pub last_tail: Option<Position>,
    /// Segments appended since the round began.
    pub grown: nat,
}

/// The snake that every round starts with: head at (3,3), body at (3,2).
pub open spec fn start_chain() -> Seq<Position> {
    seq![Position { x: 3, y: 3 }, Position { x: 3, y: 2 }]
}

/// The cell one step from `head` towards `d`.
pub open spec fn moved_head(head: Position, d: Direction) -> Position {
    Position { x: (head.x + d.dx()) as i32, y: (head.y + d.dy()) as i32 }
}

/// The chain after one movement tick: the head steps ahead and each body
/// segment takes the cell that its predecessor held.
pub open spec fn moved_chain(chain: Seq<Position>, d: Direction) -> Seq<Position> {
    seq![moved_head(chain[0], d)] + chain.drop_last()
}

/// A movement tick ends the round: the new head leaves the grid or meets a
/// cell that the chain held before the move.
pub open spec fn collides(chain: Seq<Position>, d: Direction) -> bool {
    !moved_head(chain[0], d).in_bounds() || chain.contains(moved_head(chain[0], d))
}

/// Keeps the foods that do not lie on `p`.
pub open spec fn not_at(p: Position) -> spec_fn(Position) -> bool {
    |f: Position| f != p
}

impl GameView {
    /// The last tail cell, where there is one, lies inside the grid.
    pub open spec fn tail_in_bounds(self) -> bool {
        match self.last_tail {
            Some(t) => t.in_bounds(),
            None => true,
        }
    }

    /// A settled state: at least two segments, every cell inside the grid,
    /// and the chain two longer than the number of segments grown.
    pub open spec fn valid(self) -> bool {
        &&& self.chain.len() >= 2
        &&& all_in_bounds(self.chain)
        &&& all_in_bounds(self.foods)
        &&& self.tail_in_bounds()
        &&& self.chain.len() == 2 + self.grown
    }

    /// The state at the start of a round, whatever came before it, but for
    /// the last tail cell, which a reset leaves as it was.
    pub open spec fn after_reset(self) -> GameView {
        GameView {
            chain: start_chain(),
            heading: Direction::Up,
            foods: Seq::empty(),
            last_tail: self.last_tail,
            grown: 0,
        }
    }

    /// A state at the start of a round.
    pub open spec fn is_start(self) -> bool {
        &&& self.chain == start_chain()
        &&& self.heading == Direction::Up
        &&& self.foods.len() == 0
        &&& self.grown == 0
    }

    pub open spec fn after_input(self, requested: Option<Direction>) -> GameView {
        match requested {
            Some(d) => GameView { heading: self.heading.spec_arbitrate(d), ..self },
            None => self,
        }
    }

    pub open spec fn after_step(self) -> GameView {
        GameView {
            chain: moved_chain(self.chain, self.heading),
            last_tail: Some(self.chain.last()),
            ..self
        }
    }

    pub open spec fn after_eating(self) -> GameView {
        GameView { foods: self.foods.filter(not_at(self.chain[0])), ..self }
    }

    /// A segment can be appended: a tail cell is recorded and the chain has
    /// room for one more.
    pub open spec fn can_grow(self) -> bool {
        self.last_tail is Some && self.chain.len() < usize::MAX
    }

    pub open spec fn after_growth(self) -> GameView {
        if self.can_grow() {
            GameView {
                chain: self.chain.push(self.last_tail->Some_0),
                grown: self.grown + 1,
                ..self
            }
        } else {
            self
        }
    }

    /// Input, then the movement tick where one is due, with the reset that a
    /// collision calls for.
    pub open spec fn after_movement(self, keys: HeldKeys, movement_due: bool) -> GameView {
        let a = self.after_input(keys.spec_requested());
        if movement_due {
            if collides(a.chain, a.heading) {
                a.after_step().after_reset()
            } else {
                a.after_step()
            }
        } else {
            a
        }
    }

    /// One frame: input and movement as above, then the eating check, then
    /// one growth where anything was eaten.
    pub open spec fn after_frame(self, keys: HeldKeys, movement_due: bool) -> GameView {
        let b = self.after_movement(keys, movement_due);
        let c = b.after_eating();
        if c.foods.len() < b.foods.len() {
            c.after_growth()
        } else {
            c
        }
    }
}

/// What one frame raised: whether the round ended, and how many growth
/// signals the eating check gave.
#[derive(Clone, Copy, Debug, PartialEq, Eq, Structural)]
pub struct FrameSignals {
    pub game_over: bool,
    pub growth: usize,
}

/// The simulation state: the snake, its heading, the food on the grid and the
/// bookkeeping that growth needs.
pub struct Game {
    segments: Vec<Position>,
    heading: Direction,
    foods: Vec<Position>,
    last_tail: Option<Position>,
    grown: usize,
}

impl View for Game {
    type V = GameView;

    closed spec fn view(&self) -> GameView {
        GameView {
            chain: self.segments@,
            heading: self.heading,
            foods: self.foods@,
            last_tail: self.last_tail,
            grown: self.grown as nat,
        }
    }
}


impl Game {
    /// A new round: the starting snake heading up, no food.
    pub fn new() -> (r: Game)
        ensures
            r@.is_start(),
            r@.last_tail is None,
            r@.valid(),
    {
        let mut segments: Vec<Position> = Vec::new();
        segments.push(Position { x: 3, y: 3 });
        segments.push(Position { x: 3, y: 2 });
        let r = Game {
            segments,
            heading: Direction::Up,
            foods: Vec::new(),
            last_tail: None,
            grown: 0,
        };
        assert(r@.chain =~= start_chain());
        r
    }

    /// A round with the given chain (head first) and heading, and no food.
    /// Segments beyond the first two count as grown. `None` where the chain
    /// has fewer than two segments or leaves the grid.
    pub fn with_snake(chain: Vec<Position>, heading: Direction) -> (r: Option<Game>)
        ensures
            r is Some <==> chain@.len() >= 2 && all_in_bounds(chain@),
            r matches Some(g) ==> g@ == (GameView {
                chain: chain@,
                heading,
                foods: Seq::empty(),
                last_tail: None,
                grown: (chain@.len() - 2) as nat,
            }),
            r matches Some(g) ==> g@.valid(),
    {
        if chain.len() < 2 {
            return None;
        }
        let mut i: usize = 0;
        while i < chain.len()
            invariant
                i <= chain@.len(),
                forall|j: int| 0 <= j < i ==> (#[trigger] chain@[j]).in_bounds(),
            decreases chain@.len() - i,
        {
            if !chain[i].is_in_bounds() {
                return None;
            }
            i = i + 1;
        }
        let grown = chain.len() - 2;
        Some(Game { segments: chain, heading, foods: Vec::new(), last_tail: None, grown })
    }

    /// Cells of the snake, head first.
    pub fn segments(&self) -> (r: &Vec<Position>)
        ensures
            r@ == self@.chain,
    {
        &self.segments
    }

    /// Cells that hold food.
    pub fn foods(&self) -> (r: &Vec<Position>)
        ensures
            r@ == self@.foods,
    {
        &self.foods
    }

    pub fn heading(&self) -> (r: Direction)
        ensures
            r == self@.heading,
    {
        self.heading
    }

    /// Cell that the tail left in the latest movement tick.
    pub fn last_tail(&self) -> (r: Option<Position>)
        ensures
            r == self@.last_tail,
    {
        self.last_tail
    }

    /// Segments appended since the round began.
    pub fn growth_count(&self) -> (r: usize)
        ensures
            r == self@.grown,
    {
        self.grown
    }

    /// Direction input: adopts the requested heading unless it reverses the
    /// current one.
    pub fn set_input(&mut self, requested: Option<Direction>)
        ensures
            final(self)@ == old(self)@.after_input(requested),
            final(self)@.heading != old(self)@.heading.spec_opposite(),
    {
        proof {
            crate::direction::lemma_opposite_involution(self.heading);
        }
        if let Some(d) = requested {
            self.heading = self.heading.arbitrate(d);
        }
    }

    /// One movement tick. Returns whether the round ends: the new head lies
    /// outside the grid or on a cell that the chain held before the move.
    /// The move is made either way.
    pub fn step(&mut self) -> (game_over: bool)
        requires
            old(self)@.valid(),
        ensures
            final(self)@ == old(self)@.after_step(),
            game_over == collides(old(self)@.chain, old(self)@.heading),
            final(self)@.tail_in_bounds(),
            !game_over ==> final(self)@.valid(),
    {
        let n = self.segments.len();
        let head = self.segments[0];
        let tail = self.segments[n - 1];
        let new_head = match self.heading {
            Direction::Left => Position { x: head.x - 1, y: head.y },
            Direction::Up => Position { x: head.x, y: head.y + 1 },
            Direction::Right => Position { x: head.x + 1, y: head.y },
            Direction::Down => Position { x: head.x, y: head.y - 1 },
        };
        assert(new_head == moved_head(head, self.heading));
        let game_over = !new_head.is_in_bounds() || contains(&self.segments, new_head);
        let ghost prev = self.segments@;
        let ghost start = *self;
        let mut i: usize = n - 1;
        while i > 0
            invariant
                0 <= i < n,
                n == prev.len(),
                self.segments@.len() == n,
                self.heading == start.heading,
                self.foods == start.foods,
                self.last_tail == start.last_tail,
                self.grown == start.grown,
                forall|j: int| 0 <= j <= i ==> self.segments@[j] == prev[j],
                forall|j: int| i < j < n ==> self.segments@[j] == prev[j - 1],
            decreases i,
        {
            let p = self.segments[i - 1];
            self.segments.set(i, p);
            i = i - 1;
        }
        self.segments.set(0, new_head);
        self.last_tail = Some(tail);
        assert(self.segments@ =~= moved_chain(prev, self.heading));
        game_over
    }

    /// Eating check: removes every food on the head's cell and returns how
    /// many there were, one growth signal each.
    pub fn eat(&mut self) -> (eaten: usize)
        requires
            old(self)@.valid(),
        ensures
            final(self)@ == old(self)@.after_eating(),
            eaten + final(self)@.foods.len() == old(self)@.foods.len(),
            final(self)@.valid(),
    {
        let head = self.segments[0];
        let ghost pred = not_at(head);
        let mut kept: Vec<Position> = Vec::new();
        let mut i: usize = 0;
        while i < self.foods.len()
            invariant
                i <= self.foods@.len(),
                all_in_bounds(self.foods@),
                all_in_bounds(kept@),
                pred == not_at(head),
                kept@ == self.foods@.take(i as int).filter(pred),
                kept@.len() <= i,
            decreases self.foods@.len() - i,
        {
            let f = self.foods[i];
            proof {
                let t = self.foods@.take(i + 1);
                assert(t.drop_last() =~= self.foods@.take(i as int));
                assert(t.last() == f);
                assert(pred(f) == (f != head));
                reveal(Seq::filter);
                assert(t.filter(pred) == (if pred(f) {
                    t.drop_last().filter(pred).push(f)
                } else {
                    t.drop_last().filter(pred)
                }));
            }
            if f != head {
                kept.push(f);
            }
            i = i + 1;
        }
        assert(self.foods@.take(i as int) =~= self.foods@);
        let eaten = self.foods.len() - kept.len();
        self.foods = kept;
        eaten
    }

    /// Growth: appends a segment on the last tail cell. Returns whether it
    /// did, which needs a recorded tail cell and room in the chain.
    pub fn grow(&mut self) -> (grew: bool)
        requires
            old(self)@.valid(),
        ensures
            grew == old(self)@.can_grow(),
            final(self)@ == old(self)@.after_growth(),
            final(self)@.valid(),
    {
        match self.last_tail {
            Some(t) => {
                if self.segments.len() < usize::MAX {
                    self.segments.push(t);
                    self.grown = self.grown + 1;
                    true
                } else {
                    false
                }
            },
            None => false,
        }
    }

    /// Round reset: drops every food and segment and puts back the starting
    /// snake heading up. The last tail cell is left as it was.
    pub fn reset(&mut self)
        requires
            old(self)@.tail_in_bounds(),
        ensures
            final(self)@ == old(self)@.after_reset(),
            final(self)@.is_start(),
            final(self)@.valid(),
    {
        self.foods.clear();
        self.segments.clear();
        self.segments.push(Position { x: 3, y: 3 });
        self.segments.push(Position { x: 3, y: 2 });
        self.heading = Direction::Up;
        self.grown = 0;
        assert(self.segments@ =~= start_chain());
        assert(self.foods@ =~= Seq::<Position>::empty());
    }

    /// Puts a food on cell `p`, which may already hold food or the snake.
    pub fn place_food(&mut self, p: Position)
        requires
            old(self)@.valid(),
            p.in_bounds(),
        ensures
            final(self)@ == (GameView { foods: old(self)@.foods.push(p), ..old(self)@ }),
            final(self)@.valid(),
    {
        self.foods.push(p);
    }

    /// Food spawner: puts a food on a cell drawn at random.
    pub fn spawn_food(&mut self)
        requires
            old(self)@.valid(),
        ensures
            final(self)@.foods.len() == old(self)@.foods.len() + 1,
            final(self)@ == (GameView { foods: old(self)@.foods.push(final(self)@.foods.last()), ..old(self)@ }),
            final(self)@.foods.last().in_bounds(),
            final(self)@.valid(),
    {
        let p = random_position();
        self.place_food(p);
    }

    /// One frame of the simulation: the held keys steer, the snake moves if
    /// a movement tick is due, a collision resets the round, then the head
    /// eats what lies on its cell and at most one segment grows.
    pub fn frame(&mut self, keys: HeldKeys, movement_due: bool) -> (signals: FrameSignals)
        requires
            old(self)@.valid(),
        ensures
            final(self)@ == old(self)@.after_frame(keys, movement_due),
            final(self)@.valid(),
            signals.game_over == (movement_due && collides(
                old(self)@.after_input(keys.spec_requested()).chain,
                old(self)@.after_input(keys.spec_requested()).heading,
            )),
            signals.growth == old(self)@.after_movement(keys, movement_due).foods.len()
                - old(self)@.after_movement(keys, movement_due).after_eating().foods.len(),
    {
        self.set_input(keys.requested());
        let mut game_over = false;
        if movement_due {
            game_over = self.step();
            if game_over {
                self.reset();
            }
        }
        let growth = self.eat();
        if growth > 0 {
            self.grow();
        }
        FrameSignals { game_over, growth }
    }

}

} // verus!

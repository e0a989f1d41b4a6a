use vstd::prelude::*;

use crate::direction::{lemma_opposite_involution, Direction};
use crate::grid::Position;
use crate::game::{collides, moved_chain, moved_head, start_chain, GameView};

verus! {

/// A movement tick is a function of the chain and the heading: two states
/// that agree on both move to the same chain and raise the same signal.
pub proof fn lemma_step_deterministic(v1: GameView, v2: GameView)
    requires
        v1.chain == v2.chain,
        v1.heading == v2.heading,
    ensures
        v1.after_step().chain == v2.after_step().chain,
        v1.after_step().chain == moved_chain(v1.chain, v1.heading),
        collides(v1.chain, v1.heading) == collides(v2.chain, v2.heading),
{
}

/// Direction input never turns the heading into the opposite of the one
/// before it, whatever is requested.
pub proof fn lemma_input_never_reverses(v: GameView, requested: Option<Direction>)
    ensures
        v.after_input(requested).heading != v.heading.spec_opposite(),
        requested == Some(v.heading.spec_opposite()) ==> v.after_input(requested).heading
            == v.heading,
{
    lemma_opposite_involution(v.heading);
}

/// In every settled state the chain holds the two starting segments and one
/// more for each growth accepted since the round began.
pub proof fn lemma_chain_length(v: GameView)
    requires
        v.valid(),
    ensures
        v.chain.len() == 2 + v.grown,
{
}

/// An accepted growth adds exactly one segment, on the last tail cell, and
/// counts it; the other steps of a frame leave the length and the count as
/// they were.
pub proof fn lemma_growth_counts(v: GameView, requested: Option<Direction>)
    requires
        v.valid(),
    ensures
        v.can_grow() ==> v.after_growth().chain.len() == v.chain.len() + 1
            && v.after_growth().grown == v.grown + 1
            && v.after_growth().chain.last() == v.last_tail->Some_0,
        !v.can_grow() ==> v.after_growth() == v,
        v.after_step().chain.len() == v.chain.len() && v.after_step().grown == v.grown,
        v.after_eating().chain == v.chain && v.after_eating().grown == v.grown,
        v.after_input(requested).chain == v.chain && v.after_input(requested).grown == v.grown,
        v.after_growth().valid(),
{
}

/// The round ends exactly when the new head meets a cell of the chain as it
/// was before the move, or leaves the grid.
pub proof fn lemma_collision_sound(chain: Seq<Position>, d: Direction)
    requires
        chain.len() >= 1,
    ensures
        chain.contains(moved_head(chain[0], d)) ==> collides(chain, d),
        !chain.contains(moved_head(chain[0], d)) && moved_head(chain[0], d).in_bounds()
            ==> !collides(chain, d),
{
}

/// Resetting again changes nothing: every reset gives the starting state,
/// with the starting chain, heading up and no food.
pub proof fn lemma_reset_idempotent(v: GameView)
    ensures
        v.after_reset().after_reset() == v.after_reset(),
        v.after_reset().is_start(),
        v.after_reset().chain == start_chain(),
        v.after_reset().foods.len() == 0,
{
}

/// A movement tick that raises no game over keeps the segments on distinct
/// cells, where they were distinct before it.
pub proof fn lemma_step_keeps_cells_distinct(chain: Seq<Position>, d: Direction)
    requires
        chain.len() >= 1,
        chain.no_duplicates(),
        !collides(chain, d),
    ensures
        moved_chain(chain, d).no_duplicates(),
{
    let m = moved_chain(chain, d);
    let h = moved_head(chain[0], d);
    assert forall|i: int, j: int| 0 <= i < m.len() && 0 <= j < m.len() && i != j implies m[i]
        != m[j] by {
        if i == 0 {
            assert(m[j] == chain[j - 1]);
            assert(chain.contains(m[j]));
        } else if j == 0 {
            assert(m[i] == chain[i - 1]);
            assert(chain.contains(m[i]));
        } else {
            assert(m[i] == chain[i - 1] && m[j] == chain[j - 1]);
        }
    }
}

} // verus!

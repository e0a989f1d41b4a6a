use snake_sim::direction::{Direction, HeldKeys};
use snake_sim::game::{FrameSignals, Game};
use snake_sim::grid::{Position, ARENA_HEIGHT, ARENA_WIDTH};

fn pos(x: i32, y: i32) -> Position {
    Position::new(x, y)
}

fn no_keys() -> HeldKeys {
    HeldKeys { left: false, up: false, right: false, down: false }
}

fn assert_start(g: &Game) {
    assert_eq!(g.segments(), &vec![pos(3, 3), pos(3, 2)]);
    assert_eq!(g.heading(), Direction::Up);
    assert!(g.foods().is_empty());
    assert_eq!(g.growth_count(), 0);
}

#[test]
fn new_game_is_start_state() {
    let g = Game::new();
    assert_start(&g);
    assert_eq!(g.last_tail(), None);
}

#[test]
fn opposite_is_involution() {
    for d in [Direction::Left, Direction::Up, Direction::Right, Direction::Down] {
        assert_eq!(d.opposite().opposite(), d);
        assert_ne!(d.opposite(), d);
    }
    assert_eq!(Direction::Left.opposite(), Direction::Right);
    assert_eq!(Direction::Up.opposite(), Direction::Down);
}

#[test]
fn arbitrate_rejects_reversal() {
    assert_eq!(Direction::Up.arbitrate(Direction::Down), Direction::Up);
    assert_eq!(Direction::Up.arbitrate(Direction::Left), Direction::Left);
    assert_eq!(Direction::Right.arbitrate(Direction::Left), Direction::Right);
    assert_eq!(Direction::Right.arbitrate(Direction::Right), Direction::Right);
    for cur in [Direction::Left, Direction::Up, Direction::Right, Direction::Down] {
        for req in [Direction::Left, Direction::Up, Direction::Right, Direction::Down] {
            assert_ne!(cur.arbitrate(req), cur.opposite());
        }
    }
}

#[test]
fn key_priority_order() {
    let all = HeldKeys { left: true, up: true, right: true, down: true };
    assert_eq!(all.requested(), Some(Direction::Left));
    let no_left = HeldKeys { left: false, ..all };
    assert_eq!(no_left.requested(), Some(Direction::Down));
    let up_right = HeldKeys { left: false, up: true, right: true, down: false };
    assert_eq!(up_right.requested(), Some(Direction::Up));
    let right = HeldKeys { left: false, up: false, right: true, down: false };
    assert_eq!(right.requested(), Some(Direction::Right));
    assert_eq!(no_keys().requested(), None);
}

#[test]
fn set_input_heading_up_request_down_keeps_up() {
    let mut g = Game::new();
    g.set_input(Some(Direction::Down));
    assert_eq!(g.heading(), Direction::Up);
    g.set_input(None);
    assert_eq!(g.heading(), Direction::Up);
    g.set_input(Some(Direction::Left));
    assert_eq!(g.heading(), Direction::Left);
}

#[test]
fn scenario_head_moves_right() {
    let mut g = Game::with_snake(vec![pos(5, 5), pos(4, 5), pos(3, 5)], Direction::Right).unwrap();
    let over = g.step();
    assert!(!over);
    assert_eq!(g.segments(), &vec![pos(6, 5), pos(5, 5), pos(4, 5)]);
    assert_eq!(g.last_tail(), Some(pos(3, 5)));
}

#[test]
fn step_is_deterministic() {
    let chain = vec![pos(2, 2), pos(2, 1), pos(1, 1)];
    let mut a = Game::with_snake(chain.clone(), Direction::Up).unwrap();
    let mut b = Game::with_snake(chain, Direction::Up).unwrap();
    assert_eq!(a.step(), b.step());
    assert_eq!(a.segments(), b.segments());
    assert_eq!(a.segments(), &vec![pos(2, 3), pos(2, 2), pos(2, 1)]);
}

#[test]
fn scenario_wall_collision_resets() {
    let mut g = Game::with_snake(vec![pos(9, 5), pos(8, 5)], Direction::Right).unwrap();
    let over = g.step();
    assert!(over);
    assert_eq!(g.segments()[0], pos(10, 5));
    g.reset();
    assert_start(&g);

    let mut h = Game::with_snake(vec![pos(9, 5), pos(8, 5)], Direction::Right).unwrap();
    let signals = h.frame(no_keys(), true);
    assert_eq!(signals, FrameSignals { game_over: true, growth: 0 });
    assert_start(&h);
}

#[test]
fn walls_on_every_side() {
    let cases = [
        (vec![pos(0, 4), pos(1, 4)], Direction::Left),
        (vec![pos(4, 0), pos(4, 1)], Direction::Down),
        (vec![pos(4, ARENA_HEIGHT - 1), pos(4, ARENA_HEIGHT - 2)], Direction::Up),
        (vec![pos(ARENA_WIDTH - 1, 4), pos(ARENA_WIDTH - 2, 4)], Direction::Right),
    ];
    for (chain, d) in cases {
        let mut g = Game::with_snake(chain, d).unwrap();
        assert!(g.step());
    }
}

#[test]
fn self_collision_is_game_over() {
    let mut g = Game::with_snake(
        vec![pos(5, 5), pos(4, 5), pos(4, 6), pos(5, 6), pos(6, 6)],
        Direction::Up,
    )
    .unwrap();
    assert!(g.step());
}

#[test]
fn moving_onto_vacating_tail_is_game_over() {
    let mut g = Game::with_snake(vec![pos(5, 5), pos(4, 5), pos(4, 6), pos(5, 6)], Direction::Up)
        .unwrap();
    assert!(g.step());
    assert_eq!(g.segments(), &vec![pos(5, 6), pos(5, 5), pos(4, 5), pos(4, 6)]);
}

#[test]
fn free_cell_is_no_game_over() {
    let mut g = Game::new();
    assert!(!g.step());
    assert_eq!(g.segments(), &vec![pos(3, 4), pos(3, 3)]);
    let signals = g.frame(no_keys(), true);
    assert_eq!(signals, FrameSignals { game_over: false, growth: 0 });
    assert_eq!(g.segments(), &vec![pos(3, 5), pos(3, 4)]);
}

#[test]
fn scenario_eating_grows() {
    let mut g = Game::with_snake(vec![pos(3, 2), pos(3, 1)], Direction::Up).unwrap();
    assert!(!g.step());
    assert_eq!(g.segments()[0], pos(3, 3));
    g.place_food(pos(3, 3));
    g.place_food(pos(7, 7));
    assert_eq!(g.eat(), 1);
    assert_eq!(g.foods(), &vec![pos(7, 7)]);
    assert!(g.grow());
    assert_eq!(g.segments(), &vec![pos(3, 3), pos(3, 2), pos(3, 1)]);
    assert_eq!(g.growth_count(), 1);
}

#[test]
fn frame_eats_and_grows_once() {
    let mut g = Game::new();
    g.step();
    g.place_food(pos(3, 5));
    g.place_food(pos(3, 5));
    let signals = g.frame(no_keys(), true);
    assert_eq!(signals, FrameSignals { game_over: false, growth: 2 });
    assert!(g.foods().is_empty());
    assert_eq!(g.segments(), &vec![pos(3, 5), pos(3, 4), pos(3, 3)]);
    assert_eq!(g.growth_count(), 1);
}

#[test]
fn grow_without_tail_does_nothing() {
    let mut g = Game::new();
    assert!(!g.grow());
    assert_eq!(g.segments().len(), 2);
    assert_eq!(g.growth_count(), 0);
}

#[test]
fn chain_length_counts_growths() {
    let mut g = Game::new();
    g.step();
    for n in 1..=4usize {
        assert!(g.grow());
        assert_eq!(g.segments().len(), 2 + n);
        assert_eq!(g.growth_count(), n);
    }
    g.reset();
    assert_eq!(g.segments().len(), 2);
}

#[test]
fn reset_is_idempotent() {
    let mut g = Game::with_snake(vec![pos(1, 1), pos(1, 2), pos(2, 2)], Direction::Left).unwrap();
    g.place_food(pos(0, 0));
    g.reset();
    assert_start(&g);
    g.reset();
    assert_start(&g);
    g.reset();
    assert_start(&g);
}

#[test]
fn scenario_reverse_input_ignored() {
    let mut g = Game::with_snake(vec![pos(5, 5), pos(4, 5)], Direction::Right).unwrap();
    let left = HeldKeys { left: true, up: false, right: false, down: false };
    let signals = g.frame(left, true);
    assert!(!signals.game_over);
    assert_eq!(g.heading(), Direction::Right);
    assert_eq!(g.segments(), &vec![pos(6, 5), pos(5, 5)]);
}

#[test]
fn with_snake_rejects_bad_chains() {
    assert!(Game::with_snake(vec![pos(1, 1)], Direction::Up).is_none());
    assert!(Game::with_snake(vec![], Direction::Up).is_none());
    assert!(Game::with_snake(vec![pos(1, 1), pos(10, 1)], Direction::Up).is_none());
    assert!(Game::with_snake(vec![pos(-1, 1), pos(0, 1)], Direction::Up).is_none());
    let g = Game::with_snake(vec![pos(1, 1), pos(1, 2), pos(1, 3)], Direction::Up).unwrap();
    assert_eq!(g.growth_count(), 1);
}

#[test]
fn spawned_food_lies_in_grid() {
    let mut g = Game::new();
    for n in 1..=200usize {
        g.spawn_food();
        assert_eq!(g.foods().len(), n);
    }
    assert!(g.foods().iter().all(|p| p.is_in_bounds()));
    assert!(g.foods().iter().any(|p| p.x != 0 || p.y != 0));
}

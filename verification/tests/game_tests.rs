use snake_game::game::{Game, GameKey};
use snake_game::snake::MoveDirection;

fn snake_cells(g: &Game) -> Vec<(i32, i32)> {
    (0..g.snake().length()).map(|i| g.snake().segment_position(i)).collect()
}

/// Re-rolls the food until it lands on the given cell; panics if the cell
/// never comes up in a generous number of trials.
fn spawn_food_at(g: &mut Game, cell: (i32, i32)) {
    for _ in 0..200_000 {
        g.spawn_food();
        if g.food_position() == cell {
            return;
        }
    }
    panic!("food never landed on {:?}", cell);
}

#[test]
fn new_game_initial_state() {
    let g = Game::new(20, 20);
    assert!(!g.is_game_over());
    assert!(!g.food_exists());
    assert_eq!(g.snake().length(), 1);
    assert_eq!(g.snake().position(), (11, 11));
    assert_eq!(g.snake().direction(), MoveDirection::Right);
    assert_eq!(g.width(), 20);
    assert_eq!(g.height(), 20);
}

#[test]
fn one_step_moves_head_right() {
    let mut g = Game::new(20, 20);
    g.update_snake(None);
    assert_eq!(g.snake().position(), (12, 11));
    assert_eq!(g.snake().length(), 1);
    assert!(!g.is_game_over());
}

#[test]
fn reaches_wall_after_seven_steps_then_game_over() {
    let mut g = Game::new(20, 20);
    for step in 1..=7 {
        g.update_snake(None);
        assert_eq!(g.snake().position(), (11 + step, 11));
        assert!(!g.is_game_over());
    }
    assert_eq!(g.snake().position(), (18, 11));
    g.update_snake(None);
    assert_eq!(g.snake().position(), (19, 11));
    assert!(g.is_game_over());
}

#[test]
fn opposite_input_is_dropped() {
    let mut g = Game::new(20, 20);
    g.user_input(GameKey::Left);
    assert_eq!(g.snake().direction(), MoveDirection::Right);
    g.user_input(GameKey::A);
    assert_eq!(g.snake().direction(), MoveDirection::Right);
    g.user_input(GameKey::Up);
    assert_eq!(g.snake().direction(), MoveDirection::Up);
    g.user_input(GameKey::Down);
    assert_eq!(g.snake().direction(), MoveDirection::Up);
    g.user_input(GameKey::S);
    assert_eq!(g.snake().direction(), MoveDirection::Up);
}

#[test]
fn key_mapping() {
    let mut g = Game::new(20, 20);
    g.user_input(GameKey::W);
    assert_eq!(g.snake().direction(), MoveDirection::Up);
    g.user_input(GameKey::Left);
    assert_eq!(g.snake().direction(), MoveDirection::Left);
    g.user_input(GameKey::S);
    assert_eq!(g.snake().direction(), MoveDirection::Down);
    g.user_input(GameKey::D);
    assert_eq!(g.snake().direction(), MoveDirection::Right);
    g.user_input(GameKey::Other);
    assert_eq!(g.snake().direction(), MoveDirection::Right);
}

#[test]
fn spawned_food_never_on_snake() {
    let mut g = Game::new(20, 20);
    for _ in 0..200 {
        g.spawn_food();
        assert!(g.food_exists());
        let (fx, fy) = g.food_position();
        assert!((1..=18).contains(&fx));
        assert!((1..=18).contains(&fy));
        assert!(!snake_cells(&g).contains(&(fx, fy)));
    }
}

#[test]
fn eating_food_grows_by_one() {
    let mut g = Game::new(20, 20);
    spawn_food_at(&mut g, (12, 11));
    assert_eq!(g.snake().length(), 1);
    g.update_snake(None);
    assert_eq!(g.snake().position(), (12, 11));
    assert!(!g.food_exists());
    assert_eq!(g.snake().length(), 1);
    g.update_snake(None);
    assert_eq!(g.snake().length(), 2);
    assert_eq!(g.snake().position(), (13, 11));
    assert_eq!(g.snake().segment_position(1), (12, 11));
    assert!(!g.is_game_over());
}

#[test]
fn spawned_food_never_on_longer_snake() {
    let mut g = Game::new(20, 20);
    spawn_food_at(&mut g, (12, 11));
    g.update_snake(None);
    g.update_snake(None);
    assert_eq!(g.snake().length(), 2);
    for _ in 0..200 {
        g.spawn_food();
        let food = g.food_position();
        assert!(!snake_cells(&g).contains(&food));
    }
}

#[test]
fn update_accumulates_until_period_passes() {
    let mut g = Game::new(20, 20);
    g.update(100, None);
    assert_eq!(g.snake().position(), (11, 11));
    assert!(g.food_exists());
    let food = g.food_position();
    assert!(!snake_cells(&g).contains(&food));
    g.update(101, None);
    assert_eq!(g.snake().position(), (12, 11));
    g.update(200, None);
    assert_eq!(g.snake().position(), (12, 11));
    g.update(1, None);
    assert_eq!(g.snake().position(), (13, 11));
}

#[test]
fn restart_after_game_over_delay() {
    let mut g = Game::new(20, 20);
    for _ in 0..8 {
        g.update_snake(None);
    }
    assert!(g.is_game_over());
    let mut updates = 0;
    while g.is_game_over() {
        // each update while game over adds 100 + the fixed 10 bonus
        g.update(100, None);
        updates += 1;
        assert!(updates < 100, "restart never happened");
    }
    // 10 updates of 110 each push the counter past 1000
    assert_eq!(updates, 10);
    assert_eq!(g.snake().length(), 1);
    assert_eq!(g.snake().position(), (11, 11));
    assert_eq!(g.snake().direction(), MoveDirection::Right);
    assert!(!g.is_game_over());
    assert!(g.food_exists());
    assert_ne!(g.food_position(), (11, 11));
}

#[test]
fn turning_back_onto_tail_ends_game() {
    let mut g = Game::new(20, 20);
    // grow to length 5 by eating four food cells placed on the path
    for step in 0..4 {
        spawn_food_at(&mut g, (12 + step, 11));
        g.update_snake(None);
    }
    g.update_snake(None);
    assert_eq!(g.snake().length(), 5);
    assert!(!g.is_game_over());
    // a U-turn: down, then left, then up runs the head into the tail
    g.update_snake(Some(MoveDirection::Down));
    assert!(!g.is_game_over());
    g.update_snake(Some(MoveDirection::Left));
    assert!(!g.is_game_over());
    g.update_snake(Some(MoveDirection::Up));
    assert!(g.is_game_over());
}

#[test]
fn minimum_board_is_playable() {
    let mut g = Game::new(13, 13);
    g.update_snake(None);
    // 11 is the last interior column on a 13-wide board
    assert_eq!(g.snake().position(), (12, 11));
    assert!(g.is_game_over());
}

use snake_game::game::Game;
use snake_game::render::{DrawCmd, DrawColor};

fn as_tuple(c: &DrawCmd) -> (DrawColor, i32, i32, i32, i32) {
    (c.color, c.x, c.y, c.width, c.height)
}

#[test]
fn draw_commands_fresh_game() {
    let g = Game::new(20, 20);
    let cmds = g.draw_commands();
    let got: Vec<_> = cmds.iter().map(as_tuple).collect();
    assert_eq!(
        got,
        vec![
            (DrawColor::Background, 0, 0, 20, 20),
            (DrawColor::Snake, 11, 11, 1, 1),
            (DrawColor::Border, 0, 0, 20, 1),
            (DrawColor::Border, 0, 19, 20, 1),
            (DrawColor::Border, 0, 0, 1, 20),
            (DrawColor::Border, 19, 0, 1, 20),
        ]
    );
}

#[test]
fn draw_commands_with_food() {
    let mut g = Game::new(20, 20);
    g.spawn_food();
    let (fx, fy) = g.food_position();
    let cmds = g.draw_commands();
    let got: Vec<_> = cmds.iter().map(as_tuple).collect();
    assert_eq!(got.len(), 7);
    assert_eq!(got[2], (DrawColor::Food, fx, fy, 1, 1));
}

#[test]
fn draw_commands_game_over_overlay() {
    let mut g = Game::new(20, 20);
    for _ in 0..8 {
        g.update_snake(None);
    }
    assert!(g.is_game_over());
    let cmds = g.draw_commands();
    let got: Vec<_> = cmds.iter().map(as_tuple).collect();
    assert_eq!(got.len(), 7);
    assert_eq!(got[1], (DrawColor::Snake, 19, 11, 1, 1));
    assert_eq!(*got.last().unwrap(), (DrawColor::Overlay, 0, 0, 20, 20));
}

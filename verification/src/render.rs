//! The read-only projection of a game state onto drawing primitives: a
//! list of "fill a rectangle of cells with a color" commands, in drawing
//! order. Executing them with real pixels is the rendering collaborator's
//! business, outside this crate.

use vstd::prelude::*;

use crate::game::Game;

verus! {

/// What a drawn rectangle stands for; the collaborator picks the actual
/// color of each.
#[derive(Clone, Copy, Debug, PartialEq, Eq, Structural)]
pub enum DrawColor {
    Background,
    Snake,
    Food,
    Border,
    Overlay,
}

/// One drawing command: fill the `width` x `height` rectangle of cells
/// whose top-left cell is (x, y) with the given color.
#[derive(Clone, Copy, Debug, PartialEq, Eq, Structural)]
pub struct DrawCmd {
    pub color: DrawColor,
    pub x: i32,
    pub y: i32,
    pub width: i32,
    pub height: i32,
}

impl View for DrawCmd {
    type V = (DrawColor, int, int, int, int);

    open spec fn view(&self) -> (DrawColor, int, int, int, int) {
        (self.color, self.x as int, self.y as int, self.width as int, self.height as int)
    }
}

impl Game {
    /// The full drawing order for this state: the background, every snake
    /// cell head first, the food cell if food exists, the four 1-cell
    /// border strips, and, if the game is over, the full-board overlay.
    pub fn draw_commands(&self) -> (cmds: Vec<DrawCmd>)
        requires
            self.wf(),
        ensures
            ({
                let n = self@.snake.len() as int;
                let fe: int = if self@.food_exists {
                    1
                } else {
                    0
                };
                let go: int = if self@.game_over {
                    1
                } else {
                    0
                };
                let w = self@.width;
                let h = self@.height;
                &&& cmds@.len() == 1 + n + fe + 4 + go
                &&& cmds@[0]@ == (DrawColor::Background, 0int, 0int, w, h)
                &&& forall|i: int|
                    0 <= i < n ==> #[trigger] cmds@[1 + i]@ == (
                        DrawColor::Snake,
                        self@.snake[i].0,
                        self@.snake[i].1,
                        1int,
                        1int,
                    )
                &&& self@.food_exists ==> cmds@[1 + n]@ == (
                    DrawColor::Food,
                    self@.food.0,
                    self@.food.1,
                    1int,
                    1int,
                )
                &&& cmds@[1 + n + fe]@ == (DrawColor::Border, 0int, 0int, w, 1int)
                &&& cmds@[1 + n + fe + 1]@ == (DrawColor::Border, 0int, h - 1, w, 1int)
                &&& cmds@[1 + n + fe + 2]@ == (DrawColor::Border, 0int, 0int, 1int, h)
                &&& cmds@[1 + n + fe + 3]@ == (DrawColor::Border, w - 1, 0int, 1int, h)
                &&& self@.game_over ==> cmds@[1 + n + fe + 4]@ == (
                    DrawColor::Overlay,
                    0int,
                    0int,
                    w,
                    h,
                )
            }),
    {
        let width = self.width();
        let height = self.height();
        let mut cmds: Vec<DrawCmd> = Vec::new();
        cmds.push(DrawCmd { color: DrawColor::Background, x: 0, y: 0, width, height });
        let n = self.snake().length();
        let mut i: usize = 0;
        while i < n
            invariant
                self.wf(),
                n == self@.snake.len(),
                0 <= i <= n,
                cmds@.len() == 1 + i,
                cmds@[0]@ == (DrawColor::Background, 0int, 0int, self@.width, self@.height),
                forall|j: int|
                    0 <= j < i ==> #[trigger] cmds@[1 + j]@ == (
                        DrawColor::Snake,
                        self@.snake[j].0,
                        self@.snake[j].1,
                        1int,
                        1int,
                    ),
            decreases n - i,
        {
            let (sx, sy) = self.snake().segment_position(i);
            cmds.push(DrawCmd { color: DrawColor::Snake, x: sx, y: sy, width: 1, height: 1 });
            i += 1;
        }
        if self.food_exists() {
            let (fx, fy) = self.food_position();
            cmds.push(DrawCmd { color: DrawColor::Food, x: fx, y: fy, width: 1, height: 1 });
        }
        cmds.push(DrawCmd { color: DrawColor::Border, x: 0, y: 0, width, height: 1 });
        cmds.push(DrawCmd { color: DrawColor::Border, x: 0, y: height - 1, width, height: 1 });
        cmds.push(DrawCmd { color: DrawColor::Border, x: 0, y: 0, width: 1, height });
        cmds.push(DrawCmd { color: DrawColor::Border, x: width - 1, y: 0, width: 1, height });
        if self.is_game_over() {
            cmds.push(DrawCmd { color: DrawColor::Overlay, x: 0, y: 0, width, height });
        }
        cmds
    }
}

} // verus!

//! The game state machine: the snake, the food, the board, the game-over
//! and timing state, and the per-frame update cycle.
//!
//! Time is measured in integer milliseconds; the surrounding loop converts
//! whatever clock it has to that unit before calling in.

use vstd::prelude::*;

use rand::Rng;

use crate::snake::{
    MoveDirection, SnakePart, chain_occupies, dir_after, opposite_dir, step_pos, tail_occupies,
};

verus! {

/// How long one movement period lasts, in milliseconds.
pub const MOVING_PERIOD_MS: u64 = 200;

/// How long the game waits after game over before restarting, in
/// milliseconds.
pub const RESTART_TIME_MS: u64 = 1000;

/// The fixed extra amount added to the waiting counter on every update made
/// while the game is over, so the restart comes a little sooner than the
/// nominal delay.
pub const GAME_OVER_WAIT_BONUS_MS: u64 = 10;

/// The smallest board side: the fixed starting cell (11, 11) must lie in
/// the playable interior.
pub const MIN_DIMENSION: i32 = 13;

/// How many random samples food placement makes before it falls back to a
/// plain scan of the interior.
pub const SPAWN_RETRY_LIMIT: u32 = 1000;

/// A key press the game reacts to. Anything that is not one of the eight
/// directional keys arrives as `Other` and is ignored.
#[derive(Clone, Copy, Debug, PartialEq, Eq, Structural)]
pub enum GameKey {
    Up,
    Down,
    Left,
    Right,
    W,
    A,
    S,
    D,
    Other,
}

/// The abstract game state: the snake's cells (head first) and direction,
/// the food, the board, and the game-over, timing and pending-growth state.
#[verifier::ext_equal]
pub ghost struct GameModel {
    pub snake: Seq<(int, int)>,
    pub direction: MoveDirection,
    pub food_exists: bool,
    pub food: (int, int),
    pub width: int,
    pub height: int,
    pub game_over: bool,
    pub waiting: int,
    pub ate: bool,
}

/// The cell lies in the playable interior: strictly inside the 1-cell
/// border.
pub open spec fn in_interior(p: (int, int), width: int, height: int) -> bool {
    &&& 1 <= p.0 <= width - 2
    &&& 1 <= p.1 <= height - 2
}

/// Some interior cell is free of the snake, so food can be placed.
pub open spec fn interior_free(m: GameModel) -> bool {
    exists|p: (int, int)|
        #[trigger] in_interior(p, m.width, m.height) && !chain_occupies(m.snake, p)
}

/// The direction a key maps to, if any.
pub open spec fn key_direction(key: GameKey) -> Option<MoveDirection> {
    match key {
        GameKey::Up => Option::Some(MoveDirection::Up),
        GameKey::W => Option::Some(MoveDirection::Up),
        GameKey::Down => Option::Some(MoveDirection::Down),
        GameKey::S => Option::Some(MoveDirection::Down),
        GameKey::Left => Option::Some(MoveDirection::Left),
        GameKey::A => Option::Some(MoveDirection::Left),
        GameKey::Right => Option::Some(MoveDirection::Right),
        GameKey::D => Option::Some(MoveDirection::Right),
        GameKey::Other => Option::None,
    }
}

/// The snake's direction after a key press: an unmapped key and an exact
/// reversal are both ignored, any other mapped key takes effect.
pub open spec fn input_dir(d: MoveDirection, key: GameKey) -> MoveDirection {
    match key_direction(key) {
        Option::Some(nd) => if nd == opposite_dir(d) {
            d
        } else {
            nd
        },
        Option::None => d,
    }
}

/// One movement step on the abstract state: the head advances, the body
/// follows, a pending growth appends the head's old cell, and then the
/// bounds check, the food check and the self-collision check are all
/// applied, in that order and unconditionally.
pub open spec fn step_model(m: GameModel, dir: Option<MoveDirection>) -> GameModel {
    let d = dir_after(m.direction, dir);
    let old_head = m.snake[0];
    let new_head = step_pos(old_head, d);
    let moved = seq![new_head] + m.snake.drop_last();
    let grown = if m.ate {
        moved.push(old_head)
    } else {
        moved
    };
    let hit_food = new_head == m.food;
    let out_of_bounds = !in_interior(new_head, m.width, m.height);
    let self_hit = tail_occupies(grown, new_head);
    GameModel {
        snake: grown,
        direction: d,
        food_exists: if hit_food {
            false
        } else {
            m.food_exists
        },
        food: m.food,
        width: m.width,
        height: m.height,
        game_over: m.game_over || out_of_bounds || self_hit,
        waiting: m.waiting,
        ate: hit_food,
    }
}

/// All fields of `post` but the food are as in `pre`.
pub open spec fn same_but_food(pre: GameModel, post: GameModel) -> bool {
    &&& post.snake == pre.snake
    &&& post.direction == pre.direction
    &&& post.width == pre.width
    &&& post.height == pre.height
    &&& post.game_over == pre.game_over
    &&& post.waiting == pre.waiting
    &&& post.ate == pre.ate
}

/// `post` is `pre` right after one food placement: if any interior cell is
/// free the food exists on such a cell, otherwise the food state is as it
/// was; nothing else changes.
pub open spec fn spawn_rel(pre: GameModel, post: GameModel) -> bool {
    &&& same_but_food(pre, post)
    &&& interior_free(pre) ==> {
        &&& post.food_exists
        &&& in_interior(post.food, post.width, post.height)
        &&& !chain_occupies(post.snake, post.food)
    }
    &&& !interior_free(pre) ==> {
        &&& post.food_exists == pre.food_exists
        &&& post.food == pre.food
    }
}

/// `m` with its waiting counter replaced.
pub open spec fn with_waiting(m: GameModel, w: int) -> GameModel {
    GameModel { waiting: w, ..m }
}

/// `post` is the full reset performed when the restart delay has elapsed:
/// a fresh single-segment snake, the game running, the timer zeroed, food
/// already spawned again, the board kept, and the pending-growth flag left
/// as it was.
pub open spec fn restarted_from(pre: GameModel, post: GameModel) -> bool {
    &&& post.snake == seq![(11int, 11int)]
    &&& post.direction == MoveDirection::Right
    &&& !post.game_over
    &&& post.waiting == 0
    &&& post.ate == pre.ate
    &&& post.width == pre.width
    &&& post.height == pre.height
    &&& post.food_exists
    &&& in_interior(post.food, post.width, post.height)
    &&& !chain_occupies(post.snake, post.food)
}

/// One whole frame update. While the game is over, the delta plus the fixed
/// bonus accumulates until it passes the restart delay, and then the reset
/// happens. While the game runs, the delta accumulates until it passes the
/// movement period, and then one movement step happens and the counter is
/// zeroed; in either case, missing food is spawned at once.
pub open spec fn update_rel(
    pre: GameModel,
    delta: int,
    dir: Option<MoveDirection>,
    post: GameModel,
) -> bool {
    if pre.game_over {
        let w = pre.waiting + delta + GAME_OVER_WAIT_BONUS_MS as int;
        if w > RESTART_TIME_MS as int {
            restarted_from(pre, post)
        } else {
            post == with_waiting(pre, w)
        }
    } else {
        let w = pre.waiting + delta;
        let mid = if w > MOVING_PERIOD_MS as int {
            with_waiting(step_model(pre, dir), 0)
        } else {
            with_waiting(pre, w)
        };
        if !mid.food_exists {
            spawn_rel(mid, post)
        } else {
            post == mid
        }
    }
}

/// Running a sequence of movement steps, first step first.
pub open spec fn run_steps(m: GameModel, dirs: Seq<Option<MoveDirection>>) -> GameModel
    decreases dirs.len(),
{
    if dirs.len() == 0 {
        m
    } else {
        run_steps(step_model(m, dirs[0]), dirs.drop_first())
    }
}

/// Law: one movement step never shortens the snake, and lengthens it by
/// exactly one precisely when the pending-growth flag was set, that is,
/// when food was consumed on the previous step.
pub proof fn lemma_step_length(m: GameModel, dir: Option<MoveDirection>)
    requires
        m.snake.len() >= 1,
    ensures
        step_model(m, dir).snake.len() == m.snake.len() + (if m.ate {
            1int
        } else {
            0int
        }),
        step_model(m, dir).snake.len() >= m.snake.len(),
        step_model(m, dir).snake.len() >= 1,
{
}

/// How many of the steps in the run consume pending growth: the number of
/// steps whose starting state carries the pending-growth flag, that is, one
/// per food consumed.
pub open spec fn growth_count(m: GameModel, dirs: Seq<Option<MoveDirection>>) -> int
    decreases dirs.len(),
{
    if dirs.len() == 0 {
        0
    } else {
        (if m.ate {
            1int
        } else {
            0int
        }) + growth_count(step_model(m, dirs[0]), dirs.drop_first())
    }
}

/// Law: across any sequence of movement steps the snake's length never
/// decreases, and it grows by exactly one per food consumed: the final
/// length is the initial one plus the number of steps that consumed a
/// pending growth.
pub proof fn lemma_run_length_monotone(m: GameModel, dirs: Seq<Option<MoveDirection>>)
    requires
        m.snake.len() >= 1,
    ensures
        run_steps(m, dirs).snake.len() == m.snake.len() + growth_count(m, dirs),
        growth_count(m, dirs) >= 0,
        run_steps(m, dirs).snake.len() >= m.snake.len(),
    decreases dirs.len(),
{
    if dirs.len() > 0 {
        lemma_step_length(m, dirs[0]);
        lemma_run_length_monotone(step_model(m, dirs[0]), dirs.drop_first());
    }
}

/// Law: a key press whose direction is the exact opposite of the snake's
/// current one is dropped; the direction stays as it was.
pub proof fn lemma_opposite_input_dropped(d: MoveDirection, key: GameKey)
    requires
        key_direction(key) == Option::Some(opposite_dir(d)),
    ensures
        input_dir(d, key) == d,
{
}

/// Law: a movement step applies the bounds check, the food check and the
/// self-collision check unconditionally; in particular, food sitting on
/// the head's new cell is consumed (the pending-growth flag is set and the
/// food cleared) even on a step that also ends the game.
pub proof fn lemma_all_checks_run(m: GameModel, dir: Option<MoveDirection>)
    requires
        m.snake.len() >= 1,
    ensures
        ({
            let post = step_model(m, dir);
            let new_head = step_pos(m.snake[0], dir_after(m.direction, dir));
            &&& post.ate == (new_head == m.food)
            &&& post.food_exists == (m.food_exists && new_head != m.food)
            &&& post.game_over == (m.game_over || !in_interior(new_head, m.width, m.height)
                || tail_occupies(post.snake, new_head))
            &&& (new_head == m.food && !in_interior(new_head, m.width, m.height)) ==> (post.ate
                && post.game_over && !post.food_exists)
        }),
{
}

/// The game: the snake, the food, the fixed board dimensions, and the
/// game-over, waiting-time and pending-growth state.
pub struct Game {
    snake: SnakePart,
    food_exists: bool,
    food_position: (i32, i32),
    width: i32,
    height: i32,
    game_over: bool,
    waiting_time: u64,
    ate: bool,
}

impl View for Game {
    type V = GameModel;

    closed spec fn view(&self) -> GameModel {
        GameModel {
            snake: self.snake@,
            direction: self.snake.dir(),
            food_exists: self.food_exists,
            food: (self.food_position.0 as int, self.food_position.1 as int),
            width: self.width as int,
            height: self.height as int,
            game_over: self.game_over,
            waiting: self.waiting_time as int,
            ate: self.ate,
        }
    }
}

/// Relies on rand::Rng::gen_range over the half-open range `lo..hi`, on the
/// thread-local generator: the sample lies in the range; the call panics
/// only on an empty range, which the precondition rules out.
#[verifier::external_body]
fn random_in_range(lo: i32, hi: i32) -> (r: i32)
    requires
        lo < hi,
    ensures
        lo <= r < hi,
{
    rand::thread_rng().gen_range(lo..hi)
}

impl Game {
    /// The snake is well formed, the board is at least the minimum size,
    /// the waiting counter never leaves an update above the restart delay,
    /// and while the game runs the head sits in the playable interior.
    pub closed spec fn wf(&self) -> bool {
        &&& self.snake.wf()
        &&& MIN_DIMENSION <= self.width
        &&& MIN_DIMENSION <= self.height
        &&& self.waiting_time <= RESTART_TIME_MS
        &&& !self.game_over ==> in_interior(self@.snake[0], self@.width, self@.height)
    }

    /// A fresh game on a board of the given dimensions: a single-segment
    /// snake at the starting cell moving right, no food yet, running, with
    /// the timers and the pending-growth flag cleared.
    pub fn new(width: i32, height: i32) -> (g: Game)
        requires
            MIN_DIMENSION <= width,
            MIN_DIMENSION <= height,
        ensures
            g.wf(),
            g@.snake =~= seq![(11int, 11int)],
            g@.direction == MoveDirection::Right,
            !g@.food_exists,
            g@.food == (0int, 0int),
            g@.width == width as int,
            g@.height == height as int,
            !g@.game_over,
            g@.waiting == 0,
            !g@.ate,
    {
        Game {
            snake: SnakePart::init(),
            food_exists: false,
            food_position: (0, 0),
            width,
            height,
            game_over: false,
            waiting_time: 0,
            ate: false,
        }
    }

    /// Samples random interior cells until one misses the whole snake (the
    /// head included), and places the food there. The sampling is bounded:
    /// once the retry limit is spent, a plain scan of the interior finds a
    /// free cell if one exists at all. On a board the snake has completely
    /// filled, no food is placed and the state is left as it was.
    pub fn spawn_food(&mut self)
        requires
            old(self).wf(),
        ensures
            final(self).wf(),
            interior_free(old(self)@) ==> {
                &&& final(self)@.food_exists
                &&& in_interior(final(self)@.food, final(self)@.width, final(self)@.height)
                &&& !chain_occupies(final(self)@.snake, final(self)@.food)
            },
            !interior_free(old(self)@) ==> {
                &&& final(self)@.food_exists == old(self)@.food_exists
                &&& final(self)@.food == old(self)@.food
            },
            final(self)@.snake == old(self)@.snake,
            final(self)@.direction == old(self)@.direction,
            final(self)@.width == old(self)@.width,
            final(self)@.height == old(self)@.height,
            final(self)@.game_over == old(self)@.game_over,
            final(self)@.waiting == old(self)@.waiting,
            final(self)@.ate == old(self)@.ate,
    {
        let mut food_x = random_in_range(1, self.width - 1);
        let mut food_y = random_in_range(1, self.height - 1);
        let mut tries: u32 = 0;
        while tries < SPAWN_RETRY_LIMIT && self.snake.is_inside(food_x, food_y)
            invariant
                self.wf(),
                *self == *old(self),
                1 <= food_x <= self.width - 2,
                1 <= food_y <= self.height - 2,
                tries <= SPAWN_RETRY_LIMIT,
            decreases SPAWN_RETRY_LIMIT - tries,
        {
            food_x = random_in_range(1, self.width - 1);
            food_y = random_in_range(1, self.height - 1);
            tries += 1;
        }
        if !self.snake.is_inside(food_x, food_y) {
            self.food_position = (food_x, food_y);
            self.food_exists = true;
        } else {
            self.spawn_food_scan();
        }
    }

    /// Walks the interior column by column and places the food on the first
    /// cell the snake does not occupy; leaves the state untouched when every
    /// interior cell is occupied.
    fn spawn_food_scan(&mut self)
        requires
            old(self).wf(),
        ensures
            final(self).wf(),
            interior_free(old(self)@) ==> {
                &&& final(self)@.food_exists
                &&& in_interior(final(self)@.food, final(self)@.width, final(self)@.height)
                &&& !chain_occupies(final(self)@.snake, final(self)@.food)
            },
            !interior_free(old(self)@) ==> {
                &&& final(self)@.food_exists == old(self)@.food_exists
                &&& final(self)@.food == old(self)@.food
            },
            final(self)@.snake == old(self)@.snake,
            final(self)@.direction == old(self)@.direction,
            final(self)@.width == old(self)@.width,
            final(self)@.height == old(self)@.height,
            final(self)@.game_over == old(self)@.game_over,
            final(self)@.waiting == old(self)@.waiting,
            final(self)@.ate == old(self)@.ate,
    {
        let width = self.width;
        let height = self.height;
        let mut x: i32 = 1;
        while x <= width - 2
            invariant
                self.wf(),
                *self == *old(self),
                width == self.width,
                height == self.height,
                1 <= x <= width - 1,
                forall|a: int, b: int|
                    1 <= a < x && 1 <= b <= height - 2 ==> #[trigger] chain_occupies(
                        self@.snake,
                        (a, b),
                    ),
            decreases width - x,
        {
            let mut y: i32 = 1;
            while y <= height - 2
                invariant
                    self.wf(),
                    *self == *old(self),
                    width == self.width,
                    height == self.height,
                    1 <= x <= width - 2,
                    1 <= y <= height - 1,
                    forall|a: int, b: int|
                        1 <= a < x && 1 <= b <= height - 2 ==> #[trigger] chain_occupies(
                            self@.snake,
                            (a, b),
                        ),
                    forall|b: int|
                        1 <= b < y ==> #[trigger] chain_occupies(self@.snake, (x as int, b)),
                decreases height - y,
            {
                if !self.snake.is_inside(x, y) {
                    self.food_position = (x, y);
                    self.food_exists = true;
                    return;
                }
                y += 1;
            }
            x += 1;
        }
        assert(!interior_free(old(self)@)) by {
            assert forall|p: (int, int)|
                #[trigger] in_interior(p, old(self)@.width, old(self)@.height) implies
                chain_occupies(old(self)@.snake, p) by {
                assert(chain_occupies(self@.snake, (p.0, p.1)));
            }
        }
    }

    /// Applies a key press: one of the eight directional keys turns the
    /// snake, unless the turn would be an exact reversal, which is dropped;
    /// any other key is ignored.
    pub fn user_input(&mut self, key: GameKey)
        requires
            old(self).wf(),
        ensures
            final(self).wf(),
            final(self)@.direction == input_dir(old(self)@.direction, key),
            final(self)@.snake == old(self)@.snake,
            final(self)@.food_exists == old(self)@.food_exists,
            final(self)@.food == old(self)@.food,
            final(self)@.width == old(self)@.width,
            final(self)@.height == old(self)@.height,
            final(self)@.game_over == old(self)@.game_over,
            final(self)@.waiting == old(self)@.waiting,
            final(self)@.ate == old(self)@.ate,
    {
        let dir: Option<MoveDirection> = match key {
            GameKey::Up => Option::Some(MoveDirection::Up),
            GameKey::W => Option::Some(MoveDirection::Up),
            GameKey::Down => Option::Some(MoveDirection::Down),
            GameKey::S => Option::Some(MoveDirection::Down),
            GameKey::Left => Option::Some(MoveDirection::Left),
            GameKey::A => Option::Some(MoveDirection::Left),
            GameKey::Right => Option::Some(MoveDirection::Right),
            GameKey::D => Option::Some(MoveDirection::Right),
            GameKey::Other => Option::None,
        };
        match dir {
            Option::None => {},
            Option::Some(d) => {
                let current = self.snake.direction();
                if d != current.opposite() {
                    self.snake.set_direction(d);
                }
            },
        }
    }

    /// One movement step: the snake advances with the pending turn, a
    /// pending growth appends a segment at the head's pre-move cell, and
    /// then the bounds check, the food check and the self-collision check
    /// all run, in that order and without short-circuiting one another.
    pub fn update_snake(&mut self, dir: Option<MoveDirection>)
        requires
            old(self).wf(),
            !old(self)@.game_over,
        ensures
            final(self).wf(),
            final(self)@ =~= step_model(old(self)@, dir),
    {
        let (head_x, head_y) = self.snake.position();
        self.snake.move_forward(dir);
        if self.ate {
            self.snake.add_part(head_x, head_y);
            self.ate = false;
        }
        let (new_x, new_y) = self.snake.position();
        if new_x < 1 || new_x > self.width - 2 || new_y < 1 || new_y > self.height - 2 {
            self.game_over = true;
        }
        if new_x == self.food_position.0 && new_y == self.food_position.1 {
            self.ate = true;
            self.food_exists = false;
        }
        if self.snake.overlap_tail(new_x, new_y) {
            self.game_over = true;
        }
    }

    /// The full reset after game over: a fresh snake, the timer zeroed, the
    /// game running again, and food spawned at once. The board dimensions
    /// are untouched, and so is the pending-growth flag.
    pub fn restart(&mut self)
        requires
            old(self).wf(),
        ensures
            final(self).wf(),
            restarted_from(old(self)@, final(self)@),
    {
        self.snake = SnakePart::init();
        self.food_exists = false;
        self.game_over = false;
        self.waiting_time = 0;
        self.food_position = (0, 0);
        // the fresh single-segment snake leaves (1, 1) free, so food can spawn
        assert(in_interior((1int, 1int), self@.width, self@.height));
        assert(!chain_occupies(self@.snake, (1int, 1int)));
        self.spawn_food();
    }

    /// The per-frame entry point, with the elapsed time in milliseconds.
    pub fn update(&mut self, delta_ms: u32, dir: Option<MoveDirection>)
        requires
            old(self).wf(),
        ensures
            final(self).wf(),
            update_rel(old(self)@, delta_ms as int, dir, final(self)@),
    {
        let delta: u64 = delta_ms as u64;
        if self.game_over {
            let w = self.waiting_time + delta + GAME_OVER_WAIT_BONUS_MS;
            if w > RESTART_TIME_MS {
                self.restart();
            } else {
                self.waiting_time = w;
            }
        } else {
            let w = self.waiting_time + delta;
            if w > MOVING_PERIOD_MS {
                self.update_snake(dir);
                self.waiting_time = 0;
            } else {
                self.waiting_time = w;
            }
            if !self.food_exists {
                self.spawn_food();
            }
        }
    }

    /// Whether the game is over.
    pub fn is_game_over(&self) -> (r: bool)
        ensures
            r == self@.game_over,
    {
        self.game_over
    }

    /// Whether food currently exists on the board.
    pub fn food_exists(&self) -> (r: bool)
        ensures
            r == self@.food_exists,
    {
        self.food_exists
    }

    /// The food's cell; meaningful only while food exists.
    pub fn food_position(&self) -> (p: (i32, i32))
        ensures
            (p.0 as int, p.1 as int) == self@.food,
    {
        self.food_position
    }

    /// The board width.
    pub fn width(&self) -> (w: i32)
        ensures
            w as int == self@.width,
            self.wf() ==> w >= MIN_DIMENSION,
    {
        self.width
    }

    /// The board height.
    pub fn height(&self) -> (h: i32)
        ensures
            h as int == self@.height,
            self.wf() ==> h >= MIN_DIMENSION,
    {
        self.height
    }

    /// A read-only borrow of the snake.
    pub fn snake(&self) -> (s: &SnakePart)
        requires
            self.wf(),
        ensures
            s.wf(),
            s@ == self@.snake,
            s.dir() == self@.direction,
    {
        &self.snake
    }
}

} // verus!

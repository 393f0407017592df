//! The snake's segmented body: an ordered sequence of grid cells led by the
//! head, together with the direction the snake is moving.

use vstd::prelude::*;

verus! {

/// The role a segment plays in the chain: the lead segment or a trailing one.
#[derive(Clone, Copy, Debug)]
pub enum Part {
    Head,
    Body,
}

/// One grid cell, as an integer (x, y) pair. y grows downward.
#[derive(Clone, Copy, Debug, PartialEq, Eq, Structural)]
pub struct Block {
    pub x: i32,
    pub y: i32,
}

/// A direction of movement on the grid.
#[derive(Clone, Copy, Debug, PartialEq, Eq, Structural)]
pub enum MoveDirection {
    Up,
    Down,
    Left,
    Right,
}

/// One segment record: its role and its current cell.
#[derive(Clone, Copy, Debug)]
pub struct Segment {
    pub role: Part,
    pub position: Block,
}

/// The whole snake: the chain of segments, head first, and the direction the
/// head is moving. The chain only grows during play; it is replaced by a
/// fresh single-head chain on restart.
#[derive(Debug)]
pub struct SnakePart {
    direction: MoveDirection,
    segments: Vec<Segment>,
}

/// The direction opposite to `d`.
pub open spec fn opposite_dir(d: MoveDirection) -> MoveDirection {
    match d {
        MoveDirection::Up => MoveDirection::Down,
        MoveDirection::Down => MoveDirection::Up,
        MoveDirection::Left => MoveDirection::Right,
        MoveDirection::Right => MoveDirection::Left,
    }
}

/// The direction the head moves this step: a supplied turn overrides the
/// current direction, no turn keeps it.
pub open spec fn dir_after(d: MoveDirection, turn: Option<MoveDirection>) -> MoveDirection {
    match turn {
        Option::Some(nd) => nd,
        Option::None => d,
    }
}

/// The cell one step from `p` in direction `d`.
pub open spec fn step_pos(p: (int, int), d: MoveDirection) -> (int, int) {
    match d {
        MoveDirection::Up => (p.0, p.1 - 1),
        MoveDirection::Down => (p.0, p.1 + 1),
        MoveDirection::Left => (p.0 - 1, p.1),
        MoveDirection::Right => (p.0 + 1, p.1),
    }
}

/// The step from `p` in direction `d` stays within `i32`.
pub open spec fn can_step(p: (int, int), d: MoveDirection) -> bool {
    match d {
        MoveDirection::Up => p.1 > i32::MIN,
        MoveDirection::Down => p.1 < i32::MAX,
        MoveDirection::Left => p.0 > i32::MIN,
        MoveDirection::Right => p.0 < i32::MAX,
    }
}

/// Some cell of `s` (the head included) is `p`.
pub open spec fn chain_occupies(s: Seq<(int, int)>, p: (int, int)) -> bool {
    exists|i: int| 0 <= i < s.len() && s[i] == p
}

/// Some cell of `s` strictly after the head is `p`.
pub open spec fn tail_occupies(s: Seq<(int, int)>, p: (int, int)) -> bool {
    exists|i: int| 1 <= i < s.len() && s[i] == p
}

impl View for SnakePart {
    type V = Seq<(int, int)>;

    /// A snake is abstractly the sequence of cells it occupies, head first.
    closed spec fn view(&self) -> Seq<(int, int)> {
        self.segments@.map(|i: int, s: Segment| (s.position.x as int, s.position.y as int))
    }
}

impl SnakePart {
    /// The chain is non-empty, starts with the one head, and all trailing
    /// segments are body segments.
    pub closed spec fn wf(&self) -> bool {
        &&& self.segments@.len() >= 1
        &&& self.segments@[0].role == Part::Head
        &&& forall|i: int| 1 <= i < self.segments@.len() ==> self.segments@[i].role == Part::Body
    }

    /// The direction the head is moving, for use in specifications.
    pub closed spec fn dir(&self) -> MoveDirection {
        self.direction
    }

    /// The direction the head is moving.
    pub fn direction(&self) -> (d: MoveDirection)
        ensures
            d == self.dir(),
    {
        self.direction
    }

    /// Overwrites the direction the head is moving; the chain is untouched.
    pub fn set_direction(&mut self, d: MoveDirection)
        ensures
            final(self).dir() == d,
            final(self)@ == old(self)@,
            final(self).wf() == old(self).wf(),
    {
        self.direction = d;
    }

    /// A fresh snake: a single head segment at the fixed starting cell,
    /// moving right.
    pub fn init() -> (s: SnakePart)
        ensures
            s.wf(),
            s@ =~= seq![(11int, 11int)],
            s.dir() == MoveDirection::Right,
    {
        let mut segments: Vec<Segment> = Vec::new();
        segments.push(Segment { role: Part::Head, position: Block { x: 11, y: 11 } });
        SnakePart { direction: MoveDirection::Right, segments }
    }

    /// The number of segments in the chain.
    pub fn length(&self) -> (n: usize)
        ensures
            n == self@.len(),
    {
        self.segments.len()
    }

    /// The cell the i-th segment occupies; index 0 is the head.
    pub fn segment_position(&self, i: usize) -> (p: (i32, i32))
        requires
            i < self@.len(),
        ensures
            (p.0 as int, p.1 as int) == self@[i as int],
    {
        let b = self.segments[i].position;
        (b.x, b.y)
    }

    /// Appends an already-built segment record at the end of the chain.
    fn concat_new(&mut self, new_part: Segment)
        ensures
            final(self).segments@ == old(self).segments@.push(new_part),
            final(self)@ =~= old(self)@.push(
                (new_part.position.x as int, new_part.position.y as int),
            ),
            final(self).dir() == old(self).dir(),
    {
        self.segments.push(new_part);
    }

    /// Appends a new body segment at the given cell; the chain grows by one.
    pub fn add_part(&mut self, pos_x: i32, pos_y: i32)
        requires
            old(self).wf(),
        ensures
            final(self).wf(),
            final(self)@ =~= old(self)@.push((pos_x as int, pos_y as int)),
            final(self).dir() == old(self).dir(),
    {
        let new_part = Segment { role: Part::Body, position: Block { x: pos_x, y: pos_y } };
        self.concat_new(new_part);
    }

    /// The head's cell.
    pub fn head_position(&self) -> (b: Block)
        requires
            self.wf(),
        ensures
            (b.x as int, b.y as int) == self@[0],
    {
        self.segments[0].position
    }

    /// The head's cell as a plain pair.
    pub fn position(&self) -> (p: (i32, i32))
        requires
            self.wf(),
        ensures
            (p.0 as int, p.1 as int) == self@[0],
    {
        let b = self.head_position();
        (b.x, b.y)
    }

    /// One movement step. A supplied direction first overwrites the snake's
    /// direction (no reversal check here; that is the game's concern). The
    /// head moves one cell along the resulting direction, and every trailing
    /// segment takes the cell its predecessor held before this call, in one
    /// atomic pass.
    pub fn move_forward(&mut self, dir: Option<MoveDirection>)
        requires
            old(self).wf(),
            can_step(old(self)@[0], dir_after(old(self).dir(), dir)),
        ensures
            final(self).wf(),
            final(self).dir() == dir_after(old(self).dir(), dir),
            final(self)@.len() == old(self)@.len(),
            final(self)@[0] == step_pos(old(self)@[0], final(self).dir()),
            final(self)@ =~= seq![step_pos(old(self)@[0], final(self).dir())]
                + old(self)@.drop_last(),
            forall|i: int| 1 <= i < old(self)@.len() ==> final(self)@[i] == old(self)@[i - 1],
    {
        match dir {
            Option::Some(d) => self.direction = d,
            Option::None => {},
        }
        let head = self.segments[0].position;
        let new_head = match self.direction {
            MoveDirection::Up => Block { x: head.x, y: head.y - 1 },
            MoveDirection::Down => Block { x: head.x, y: head.y + 1 },
            MoveDirection::Left => Block { x: head.x - 1, y: head.y },
            MoveDirection::Right => Block { x: head.x + 1, y: head.y },
        };
        let n = self.segments.len();
        let mut new_segments: Vec<Segment> = Vec::new();
        new_segments.push(Segment { role: Part::Head, position: new_head });
        let mut i: usize = 1;
        while i < n
            invariant
                1 <= i <= n,
                n == self.segments.len(),
                new_segments.len() == i,
                new_segments@[0] == (Segment { role: Part::Head, position: new_head }),
                forall|j: int| 1 <= j < i ==> new_segments@[j] == (Segment {
                    role: Part::Body,
                    position: self.segments@[j - 1].position,
                }),
            decreases n - i,
        {
            new_segments.push(
                Segment { role: Part::Body, position: self.segments[i - 1].position },
            );
            i += 1;
        }
        self.segments = new_segments;
    }

    /// Whether any segment strictly after the head sits at (x, y): the
    /// head-exclusive check used for self-collision.
    pub fn overlap_tail(&self, x: i32, y: i32) -> (r: bool)
        requires
            self.wf(),
        ensures
            r == tail_occupies(self@, (x as int, y as int)),
    {
        let n = self.segments.len();
        let mut i: usize = 1;
        while i < n
            invariant
                1 <= i <= n,
                n == self.segments.len(),
                forall|j: int| 1 <= j < i ==> self@[j] != ((x as int, y as int)),
            decreases n - i,
        {
            let b = self.segments[i].position;
            if b.x == x && b.y == y {
                assert(self@[i as int] == ((x as int, y as int)));
                return true;
            }
            i += 1;
        }
        false
    }

    /// Whether any segment of the whole chain, the head included, sits at
    /// (x, y): the head-inclusive containment check used for food placement.
    pub fn is_inside(&self, x: i32, y: i32) -> (r: bool)
        requires
            self.wf(),
        ensures
            r == chain_occupies(self@, (x as int, y as int)),
    {
        let n = self.segments.len();
        let mut i: usize = 0;
        while i < n
            invariant
                0 <= i <= n,
                n == self.segments.len(),
                forall|j: int| 0 <= j < i ==> self@[j] != ((x as int, y as int)),
            decreases n - i,
        {
            let b = self.segments[i].position;
            if b.x == x && b.y == y {
                assert(self@[i as int] == ((x as int, y as int)));
                return true;
            }
            i += 1;
        }
        false
    }
}

impl MoveDirection {
    /// The direction opposite to this one.
    pub fn opposite(&self) -> (r: MoveDirection)
        ensures
            r == opposite_dir(*self),
    {
        match *self {
            MoveDirection::Up => MoveDirection::Down,
            MoveDirection::Down => MoveDirection::Up,
            MoveDirection::Left => MoveDirection::Right,
            MoveDirection::Right => MoveDirection::Left,
        }
    }
}

} // verus!

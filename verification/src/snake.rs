//! Per-entity simulation state: the snake's body, its direction bookkeeping,
//! the single-slot queue for a second turn, and the one-tick update rule.

use vstd::prelude::*;

use crate::grid::{i16_of_bytes, Direction, GridPosition, GRID_HEIGHT, GRID_WIDTH};

verus! {

/// Which of the two entities a value belongs to. The server peer owns
/// entity one, the client peer owns entity two, for the whole match.
#[derive(Clone, Copy, PartialEq, Eq, Structural, Debug)]
pub enum Player {
    One,
    Two,
}

impl Player {
    /// The other entity.
    pub fn not(&self) -> (r: Self)
        ensures
            r != *self,
    {
        match self {
            Player::One => Player::Two,
            Player::Two => Player::One,
        }
    }
}

/// One grid cell occupied by part of a snake's body.
#[derive(Clone, Copy, PartialEq, Eq, Structural, Debug)]
pub struct Segment {
    pub pos: GridPosition,
}

impl Segment {
    pub fn new(pos: GridPosition) -> (r: Self)
        ensures
            r == (Segment { pos }),
    {
        Segment { pos }
    }
}

/// The single shared food item: one position on the grid.
#[derive(Clone, PartialEq, Eq, Debug)]
pub struct Food {
    pub pos: GridPosition,
}

impl Food {
    pub fn new(pos: GridPosition) -> (r: Self)
        ensures
            r.pos == pos,
    {
        Food { pos }
    }

    pub fn to_bytes(&self) -> (r: [u8; 4])
        ensures
            r@ == self.pos.bytes_spec(),
    {
        self.pos.to_bytes()
    }

    pub fn from_bytes(bytes: &[u8; 4]) -> (r: Self)
        ensures
            r.pos.x == i16_of_bytes(bytes[0], bytes[1]),
            r.pos.y == i16_of_bytes(bytes[2], bytes[3]),
    {
        let grid_pos = GridPosition::from_bytes(bytes);
        Self::new(grid_pos)
    }
}

/// What a snake ate during its most recent update: the food, itself, or
/// (as `None` in the surrounding `Option`) nothing. Recomputed every tick,
/// never carried further.
#[derive(Clone, Copy, PartialEq, Eq, Structural, Debug)]
pub enum Ate {
    Itself,
    Food,
}

/// The mathematical state of one snake: the head cell, the body cells
/// ordered from the most recently vacated head position down to the tail,
/// and the direction bookkeeping of the update rule.
#[verifier::ext_equal]
pub ghost struct SnakeView {
    pub head: GridPosition,
    pub body: Seq<GridPosition>,
    pub dir: Direction,
    pub last_update_dir: Direction,
    pub next_dir: Option<Direction>,
    pub ate: Option<Ate>,
}

impl SnakeView {
    /// Every cell of the snake lies on the board.
    pub open spec fn wf(self) -> bool {
        &&& self.head.in_grid()
        &&& forall|i: int| 0 <= i < self.body.len() ==> (#[trigger] self.body[i]).in_grid()
    }

    /// A queued direction is promoted at the start of an update only once
    /// the previous change has been applied by a tick.
    pub open spec fn promotes(self) -> bool {
        self.last_update_dir == self.dir && self.next_dir is Some
    }

    /// The direction the next update actually moves in.
    pub open spec fn effective_dir(self) -> Direction {
        if self.promotes() {
            self.next_dir.unwrap()
        } else {
            self.dir
        }
    }

    /// The cell the head occupies after the next update.
    pub open spec fn next_head(self) -> GridPosition {
        GridPosition::move_spec(self.head, self.effective_dir())
    }

    /// The body as it stands mid-update, after the old head was pushed onto
    /// its front and before the tail may be popped.
    pub open spec fn pushed_body(self) -> Seq<GridPosition> {
        seq![self.head] + self.body
    }

    /// The new head runs into the snake's own mid-update body. The old head
    /// has already been pushed, the tail not yet popped: a snake of length
    /// two turning back onto its previous head cell does collide.
    pub open spec fn hits_self(self) -> bool {
        self.pushed_body().contains(self.next_head())
    }

    /// What the next update makes the snake eat: itself takes precedence
    /// over food; otherwise nothing.
    pub open spec fn outcome(self, food: GridPosition) -> Option<Ate> {
        if self.hits_self() {
            Some(Ate::Itself)
        } else if self.next_head() == food {
            Some(Ate::Food)
        } else {
            None
        }
    }
}

/// The one-tick update rule: promote a queued direction if due, step the
/// head, push the old head onto the body, record what was eaten, and pop
/// the tail exactly when nothing was eaten.
pub open spec fn snake_update(s: SnakeView, food: GridPosition) -> SnakeView {
    let eff = s.effective_dir();
    let out = s.outcome(food);
    SnakeView {
        head: s.next_head(),
        body: if out is None {
            s.pushed_body().drop_last()
        } else {
            s.pushed_body()
        },
        dir: eff,
        last_update_dir: eff,
        next_dir: if s.promotes() {
            None
        } else {
            s.next_dir
        },
        ate: out,
    }
}

/// A newly requested direction is applied to `dir` at once only when no
/// change is already pending and it is not the reversal of the direction
/// last applied by a tick.
pub open spec fn gate_accepts(s: SnakeView, req: Direction) -> bool {
    s.dir == s.last_update_dir && req.inverse_spec() != s.last_update_dir
}

/// A request not applied at once is queued when it is not the reversal of
/// the current direction.
pub open spec fn gate_queues(s: SnakeView, req: Direction) -> bool {
    !gate_accepts(s, req) && req.inverse_spec() != s.dir
}

/// The direction-change gating rule: apply, queue, or drop the request.
pub open spec fn gate(s: SnakeView, req: Direction) -> SnakeView {
    if gate_accepts(s, req) {
        SnakeView { dir: req, ..s }
    } else if gate_queues(s, req) {
        SnakeView { next_dir: Some(req), ..s }
    } else {
        s
    }
}

/// The initial snake of a match: a head with one body segment directly to
/// its left, moving right, nothing queued, nothing eaten.
pub open spec fn initial_snake(pos: GridPosition) -> SnakeView {
    SnakeView {
        head: pos,
        body: seq![GridPosition { x: (pos.x - 1) as i16, y: pos.y }],
        dir: Direction::Right,
        last_update_dir: Direction::Right,
        next_dir: None,
        ate: None,
    }
}

/// One snake as the simulation holds it. The body is ordered from the
/// most recently vacated head cell (front) to the tail (back); an update
/// pushes at the front and pops at the back, nothing else.
#[derive(Clone, PartialEq, Eq, Debug)]
pub struct Snake {
    /// The head cell.
    pub head: Segment,
    /// The direction the next update will move in.
    pub dir: Direction,
    /// The body cells behind the head.
    pub body: Vec<Segment>,
    /// What the most recent update made this snake eat.
    pub ate: Option<Ate>,
    /// The direction the most recent update moved in; gates new requests.
    pub last_update_dir: Direction,
    /// A single queued direction for the update after the next one, so two
    /// quick turns before a tick are not lost.
    pub next_dir: Option<Direction>,
}

impl View for Snake {
    type V = SnakeView;

    open spec fn view(&self) -> SnakeView {
        SnakeView {
            head: self.head.pos,
            body: self.body@.map(|_i: int, s: Segment| s.pos),
            dir: self.dir,
            last_update_dir: self.last_update_dir,
            next_dir: self.next_dir,
            ate: self.ate,
        }
    }
}

impl Snake {
    pub open spec fn wf(self) -> bool {
        self@.wf()
    }

    pub fn new(pos: GridPosition, _player: Player) -> (r: Self)
        requires
            1 <= pos.x < GRID_WIDTH,
            0 <= pos.y < GRID_HEIGHT,
        ensures
            r@ == initial_snake(pos),
            r.wf(),
    {
        let mut body: Vec<Segment> = Vec::new();
        body.push(Segment::new(GridPosition::new(pos.x - 1, pos.y)));
        let r = Snake {
            head: Segment::new(pos),
            dir: Direction::Right,
            last_update_dir: Direction::Right,
            body,
            ate: None,
            next_dir: None,
        };
        assert(r@ =~= initial_snake(pos));
        r
    }

    /// Whether the head stands on the given food.
    pub fn eats(&self, food: &Food) -> (r: bool)
        ensures
            r == (self@.head == food.pos),
    {
        if self.head.pos == food.pos {
            true
        } else {
            false
        }
    }

    /// Whether the head stands on any cell of the body.
    pub fn eats_self(&self) -> (r: bool)
        ensures
            r == self@.body.contains(self@.head),
    {
        let mut i: usize = 0;
        while i < self.body.len()
            invariant
                i <= self.body.len(),
                forall|j: int| 0 <= j < i ==> self@.body[j] != self@.head,
            decreases self.body.len() - i,
        {
            if self.head.pos == self.body[i].pos {
                assert(self@.body[i as int] == self@.head);
                return true;
            }
            i = i + 1;
        }
        false
    }

    /// One tick of this snake against the given food, following
    /// `snake_update` exactly.
    pub fn update(&mut self, food: &Food)
        requires
            old(self).wf(),
        ensures
            final(self)@ == snake_update(old(self)@, food.pos),
            final(self).wf(),
    {
        // Promote a queued direction once the previous change has been
        // applied by a tick.
        if self.last_update_dir == self.dir && self.next_dir.is_some() {
            self.dir = self.next_dir.unwrap();
            self.next_dir = None;
        }

        let new_head_pos = GridPosition::new_from_move(self.head.pos, self.dir);
        let new_head = Segment::new(new_head_pos);
        // The old head becomes the front of the body ...
        self.body.insert(0, self.head);
        // ... and the stepped cell the new head.
        self.head = new_head;
        assert(self@.body =~= old(self)@.pushed_body());

        // The collision check runs against the pushed body, before any pop:
        // turning back onto the immediately vacated cell is a collision.
        if self.eats_self() {
            self.ate = Some(Ate::Itself);
        } else if self.eats(food) {
            self.ate = Some(Ate::Food);
        } else {
            self.ate = None;
        }

        // Nothing eaten: the tail moves up, the length stays. Food: the
        // body keeps the extra segment. Itself: the state is left for the
        // terminal handling of the aggregate.
        if let None = self.ate {
            let _ = self.body.pop();
            assert(self@.body =~= old(self)@.pushed_body().drop_last());
        }

        self.last_update_dir = self.dir;
        assert(self@ =~= snake_update(old(self)@, food.pos));
    }

    /// Applies the gating rule to a direction request for this snake.
    pub fn request_direction(&mut self, dir: Direction)
        ensures
            final(self)@ == gate(old(self)@, dir),
    {
        if self.dir == self.last_update_dir && dir.inverse() != self.last_update_dir {
            self.dir = dir;
        } else if dir.inverse() != self.dir {
            self.next_dir = Some(dir);
        }
        assert(self@ =~= gate(old(self)@, dir));
    }
}

/// The gating rule never turns the snake straight back on itself: whenever
/// it changes `dir` at all, the new direction is not the reversal of the
/// direction last applied by a tick.
pub proof fn lemma_no_reversal_within_tick(s: SnakeView, req: Direction)
    ensures
        gate(s, req).dir == s.dir || gate(s, req).dir != s.last_update_dir.inverse_spec(),
{
}

/// A request to reverse the current direction while no change is pending
/// is dropped outright: `dir` is never overwritten with it and the queued
/// slot is left untouched, however often it is repeated.
pub proof fn lemma_reversal_request_dropped(s: SnakeView, req: Direction)
    requires
        s.dir == s.last_update_dir,
        req == s.dir.inverse_spec(),
    ensures
        gate(s, req) == s,
{
}

/// Peer consistency of the direction-replay protocol: a peer never sends
/// its entity's position, only the post-update direction triple, and the
/// receiver replays the update on its own copy of the entity. When the
/// sender had nothing queued, that replay — the pre-tick snake both sides
/// share, with the received triple written over its direction fields, then
/// one update — lands exactly on the sender's post-update snake. (With a
/// direction queued the received triple makes the receiver promote it one
/// tick early, which this statement therefore excludes.)
pub proof fn lemma_direction_replay_consistent(s: SnakeView, food: GridPosition)
    requires
        s.next_dir is None,
    ensures
        ({
            let p = snake_update(s, food);
            let replayed = SnakeView {
                dir: p.dir,
                last_update_dir: p.last_update_dir,
                next_dir: p.next_dir,
                ..s
            };
            snake_update(replayed, food) == p
        }),
{
    let p = snake_update(s, food);
    let replayed = SnakeView { dir: p.dir, last_update_dir: p.last_update_dir, next_dir: p.next_dir, ..s };
    assert(snake_update(replayed, food) =~= p);
}

/// A snake of length three or more whose head steps onto its own second
/// body segment eats itself.
pub proof fn lemma_self_collision(s: SnakeView, food: GridPosition)
    requires
        s.body.len() >= 2,
        s.next_head() == s.body[1],
    ensures
        s.outcome(food) == Some(Ate::Itself),
{
    assert(s.pushed_body()[2] == s.body[1]);
    assert(s.pushed_body().contains(s.next_head()));
}

/// A snake of length one never eats itself, whatever its direction: a step
/// on the torus always leaves the current cell, and there is no body to
/// run into.
pub proof fn lemma_lone_head_never_eats_itself(s: SnakeView, food: GridPosition)
    requires
        s.body.len() == 0,
        s.head.in_grid(),
    ensures
        s.outcome(food) != Some(Ate::Itself),
{
    assert(s.next_head() != s.head);
    assert(s.pushed_body().len() == 1);
    assert(s.pushed_body()[0] == s.head);
    assert(!s.hits_self());
}

} // verus!

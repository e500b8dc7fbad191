//! The game-state machine: construction, fixed-tick updates, collision
//! rules, growth and scoring, input handling and restart semantics.
//!
//! Time is measured in microseconds and the tick rate in hundredths of a
//! tick per second, so that every quantity the machine reasons about is an
//! integer. The driver loop converts whatever clock it has into elapsed
//! microseconds before calling [`GameState::update`].

use vstd::prelude::*;
use crate::geometry::{Direction, Key, Position, key_direction, key_direction_of, opposite,
    opposite_of, spec_offset, direction_offset};

verus! {

/// Tick rate of a fresh game, in hundredths of a tick per second.
pub const BASE_VELOCITY: u32 = 600;

/// Dividend turning a velocity into a tick interval: microseconds per
/// second times the hundredfold velocity scale.
pub const VELOCITY_SCALE_MICROS: u64 = 100_000_000;

/// What the snake collides with at the start of a tick, evaluated on the
/// head position before any movement. Priority: snake, then border, then
/// fruit; the first match wins.
#[derive(Clone, Copy, Debug, PartialEq, Eq, Structural)]
pub enum Collision {
    WithFruit,
    WithSnake,
    WithBorder,
    NoCollision,
}

/// The whole simulation state of one game session.
///
/// The fields are readable by collaborators (the renderer draws from
/// them), but only [`GameState::update`] and [`GameState::handle_key`]
/// are meant to mutate a live game.
pub struct GameState {
    /// Tick rate in hundredths of a tick per second; grows with each fruit.
    pub velocity: u32,
    /// Direction the head will move on the next tick.
    pub direction: Direction,
    /// Set once a direction change is accepted; cleared at each tick, so at
    /// most one change is applied per tick however many keys arrive.
    pub direction_lock: bool,
    /// Set when a fruit is eaten; the next movement step keeps the vacated
    /// tail cell instead of discarding it, growing the body by one.
    pub growth_pending: bool,
    /// Terminal flag: set on border or self collision.
    pub game_over: bool,
    /// Set by the restart key; the next update rebuilds a fresh game.
    pub restart_requested: bool,
    /// Position of the head cell.
    pub head: Position,
    /// Body cells ordered from nearest-to-head to tail.
    pub body: Vec<Position>,
    /// Position of the fruit, always strictly inside the border.
    pub fruit: Position,
    /// Board width in cells; cells at x = 0 and x = width are out of bounds.
    pub width: i32,
    /// Board height in cells; cells at y = 0 and y = height are out of bounds.
    pub height: i32,
    /// Real time accumulated since the last tick, in microseconds.
    pub elapsed_micros: u64,
    /// Fruits eaten so far.
    pub score: u32,
}

/// Addition on `u64` values that stops at the largest representable value
/// instead of wrapping.
pub open spec fn sat_add_u64(a: int, b: int) -> int {
    if a + b > u64::MAX {
        u64::MAX as int
    } else {
        a + b
    }
}

/// Increment on `u32` values that stops at the largest representable value.
pub open spec fn sat_inc_u32(a: int) -> int {
    if a == u32::MAX {
        a
    } else {
        a + 1
    }
}

/// Accumulated time needed before the next tick fires, in microseconds.
pub open spec fn interval_micros(velocity: u32) -> int {
    VELOCITY_SCALE_MICROS as int / velocity as int
}

/// The fruit may lie anywhere strictly inside the border: never on it, so
/// it stays reachable and a fruit cell is never also a border cell.
pub open spec fn fruit_in_interior(fruit: Position, width: i32, height: i32) -> bool {
    &&& 1 <= fruit.x < width - 1
    &&& 1 <= fruit.y < height - 1
}

/// Head cell of a fresh game: the grid center.
pub open spec fn initial_head(width: i32, height: i32) -> Position {
    Position { x: (width as int / 2) as i32, y: (height as int / 2) as i32 }
}

/// Body of a fresh game: four segments extending from the head in the +x
/// direction, so the initial travel direction `Left` leads away from them.
pub open spec fn initial_body(width: i32, height: i32) -> Seq<Position> {
    seq![
        Position { x: (width as int / 2 + 1) as i32, y: (height as int / 2) as i32 },
        Position { x: (width as int / 2 + 2) as i32, y: (height as int / 2) as i32 },
        Position { x: (width as int / 2 + 3) as i32, y: (height as int / 2) as i32 },
        Position { x: (width as int / 2 + 4) as i32, y: (height as int / 2) as i32 },
    ]
}

/// A state exactly as construction with these dimensions leaves it. Only
/// the fruit cell is left open, since it is drawn at random; everything
/// that holds of it is that it lies strictly inside the border.
pub open spec fn fresh_state(s: GameState, width: i32, height: i32) -> bool {
    &&& s.width == width
    &&& s.height == height
    &&& s.velocity == BASE_VELOCITY
    &&& s.score == 0
    &&& s.direction == Direction::Left
    &&& !s.direction_lock
    &&& !s.growth_pending
    &&& !s.game_over
    &&& !s.restart_requested
    &&& s.elapsed_micros == 0
    &&& s.head == initial_head(width, height)
    &&& s.body@ == initial_body(width, height)
    &&& fruit_in_interior(s.fruit, width, height)
}

/// A head cell that ends — and keeps ending — the game: the head stands
/// on a body cell or on the border.
pub open spec fn head_collides(s: GameState) -> bool {
    ||| s.body@.contains(s.head)
    ||| s.head.x <= 0
    ||| s.head.x >= s.width
    ||| s.head.y <= 0
    ||| s.head.y >= s.height
}

impl GameState {
    /// Well-formedness of a reachable state: a playable board, the head
    /// within the closed board rectangle, the fruit strictly inside the
    /// border, at least the initial body length, a velocity at or above
    /// the base rate, and — once the game is over — a head that still
    /// stands on the collision that ended it, which is what keeps the
    /// ended game from ever moving again.
    pub open spec fn wf(self) -> bool {
        &&& 3 <= self.width
        &&& 3 <= self.height
        &&& 0 <= self.head.x <= self.width
        &&& 0 <= self.head.y <= self.height
        &&& fruit_in_interior(self.fruit, self.width, self.height)
        &&& self.body@.len() >= 4
        &&& self.velocity >= BASE_VELOCITY
        &&& self.game_over ==> head_collides(self)
    }
}

/// Collision at the start of a tick, as a pure function of the state. The
/// checks are made in priority order and the first match wins: the head
/// meeting a body cell is a self collision even on the border, and a head
/// on the border is a border collision even on the fruit cell.
pub open spec fn spec_collision(s: GameState) -> Collision {
    if s.body@.contains(s.head) {
        Collision::WithSnake
    } else if s.head.x <= 0 || s.head.x >= s.width || s.head.y <= 0 || s.head.y >= s.height {
        Collision::WithBorder
    } else if s.head == s.fruit {
        Collision::WithFruit
    } else {
        Collision::NoCollision
    }
}

/// Where the head lands when it moves one cell in direction `d`.
pub open spec fn moved_head(head: Position, d: Direction) -> Position {
    Position {
        x: (head.x + spec_offset(d).0) as i32,
        y: (head.y + spec_offset(d).1) as i32,
    }
}

/// The body after one movement step: every segment takes the position of
/// its predecessor, the old head becomes the first segment. When growth is
/// pending, the cell the tail vacates is kept as a new last segment;
/// otherwise it is discarded.
pub open spec fn shifted_body(prev_head: Position, body: Seq<Position>, grow: bool) -> Seq<Position> {
    if grow {
        seq![prev_head] + body
    } else {
        seq![prev_head] + body.drop_last()
    }
}

/// How one key event transforms the state: the restart key always records
/// the restart wish; any other key is ignored while the direction lock is
/// held; a direction key matching the exact reverse of the current
/// direction is rejected; an accepted direction key turns the snake and
/// takes the lock; unrecognized keys change nothing.
pub open spec fn key_transition(s: GameState, k: Key) -> GameState {
    if k == Key::Restart {
        GameState { restart_requested: true, ..s }
    } else if s.direction_lock {
        s
    } else {
        match key_direction(k) {
            Some(d) => if d == opposite(s.direction) {
                s
            } else {
                GameState { direction: d, direction_lock: true, ..s }
            },
            None => s,
        }
    }
}

/// What one fired tick does. The tick is consumed whatever its outcome:
/// the time accumulator is reset to zero. On a self or border collision
/// the game ends with nothing moved; on any other outcome the snake
/// advances one cell, a fruit collision having first rewarded the meal
/// (score, speed, a relocated fruit, growth pending for the next
/// movement step).
pub open spec fn ticked(pre: GameState, post: GameState) -> bool {
    let c = spec_collision(pre);
    if c == Collision::WithSnake || c == Collision::WithBorder {
        post == GameState {
            direction_lock: false,
            game_over: true,
            elapsed_micros: 0,
            ..pre
        }
    } else {
        &&& post.width == pre.width
        &&& post.height == pre.height
        &&& post.direction == pre.direction
        &&& !post.direction_lock
        &&& post.game_over == pre.game_over
        &&& post.restart_requested == pre.restart_requested
        &&& post.elapsed_micros == 0
        &&& post.head == moved_head(pre.head, pre.direction)
        &&& post.body@ == shifted_body(pre.head, pre.body@, pre.growth_pending)
        &&& post.growth_pending == (c == Collision::WithFruit)
        &&& if c == Collision::WithFruit {
            &&& post.score == sat_inc_u32(pre.score as int)
            &&& post.velocity == sat_inc_u32(pre.velocity as int)
            &&& fruit_in_interior(post.fruit, pre.width, pre.height)
        } else {
            &&& post.score == pre.score
            &&& post.velocity == pre.velocity
            &&& post.fruit == pre.fruit
        }
    }
}

/// How one `update` call transforms the state. A requested restart
/// rebuilds a fresh game and does nothing else. Otherwise the elapsed time
/// is accumulated; below the tick interval nothing but the accumulator
/// changes, and once the interval is reached exactly one tick fires.
pub open spec fn update_rel(pre: GameState, dt_micros: u64, post: GameState) -> bool {
    if pre.restart_requested {
        fresh_state(post, pre.width, pre.height)
    } else {
        let acc = sat_add_u64(pre.elapsed_micros as int, dt_micros as int);
        if acc < interval_micros(pre.velocity) {
            post == GameState { elapsed_micros: acc as u64, ..pre }
        } else {
            ticked(pre, post)
        }
    }
}

impl GameState {
    /// Builds a fresh game on a `width` by `height` board: snake of one
    /// head and four body segments laid out horizontally at the grid
    /// center, facing left; a random fruit strictly inside the border;
    /// base velocity; all flags clear; score and clock at zero.
    pub fn new(width: i32, height: i32) -> (s: GameState)
        requires
            3 <= width,
            3 <= height,
        ensures
            s.wf(),
            fresh_state(s, width, height),
    {
        let cx = width / 2;
        let cy = height / 2;
        let mut body: Vec<Position> = Vec::new();
        body.push(Position { x: cx + 1, y: cy });
        body.push(Position { x: cx + 2, y: cy });
        body.push(Position { x: cx + 3, y: cy });
        body.push(Position { x: cx + 4, y: cy });
        let fruit = Position::randnew(width, height);
        let s = GameState {
            velocity: BASE_VELOCITY,
            direction: Direction::Left,
            direction_lock: false,
            growth_pending: false,
            game_over: false,
            restart_requested: false,
            head: Position { x: cx, y: cy },
            body,
            fruit,
            width,
            height,
            elapsed_micros: 0,
            score: 0,
        };
        proof {
            assert(s.body@ =~= initial_body(width, height));
        }
        s
    }

    /// Applies one key event, exactly as [`key_transition`] describes. In
    /// particular a key asking for the exact reverse of the current
    /// direction never changes the direction field.
    pub fn handle_key(&mut self, key: Key)
        requires
            old(self).wf(),
        ensures
            final(self).wf(),
            *final(self) == key_transition(*old(self), key),
            key_direction(key) == Some(opposite(old(self).direction))
                ==> final(self).direction == old(self).direction,
    {
        if let Key::Restart = key {
            self.restart_requested = true;
            return;
        }
        if self.direction_lock {
            return;
        }
        match key_direction_of(key) {
            Some(d) => {
                if d != opposite_of(self.direction) {
                    self.direction = d;
                    self.direction_lock = true;
                }
            }
            None => {}
        }
    }

    /// Rewards a meal: marks growth as pending for the next movement
    /// step, raises the tick rate by one hundredth of a tick per second,
    /// relocates the fruit at random, and scores one point. The new fruit
    /// cell is not checked against the snake, so it may lie under the
    /// body; only its distance from the border is guaranteed. Score and
    /// velocity stop at the largest representable value instead of
    /// wrapping.
    pub fn growth_action(&mut self)
        requires
            old(self).wf(),
        ensures
            final(self).wf(),
            final(self).growth_pending,
            final(self).velocity == sat_inc_u32(old(self).velocity as int),
            final(self).score == sat_inc_u32(old(self).score as int),
            fruit_in_interior(final(self).fruit, old(self).width, old(self).height),
            final(self).head == old(self).head,
            final(self).body == old(self).body,
            final(self).direction == old(self).direction,
            final(self).direction_lock == old(self).direction_lock,
            final(self).game_over == old(self).game_over,
            final(self).restart_requested == old(self).restart_requested,
            final(self).elapsed_micros == old(self).elapsed_micros,
            final(self).width == old(self).width,
            final(self).height == old(self).height,
    {
        self.growth_pending = true;
        if self.velocity < u32::MAX {
            self.velocity = self.velocity + 1;
        }
        self.fruit = Position::randnew(self.width, self.height);
        if self.score < u32::MAX {
            self.score = self.score + 1;
        }
    }

    /// Evaluates the collision for the current head position, in priority
    /// order: self collision first, then border, then fruit.
    pub fn is_collision(&self) -> (c: Collision)
        ensures
            c == spec_collision(*self),
    {
        let n = self.body.len();
        let mut i: usize = 0;
        while i < n
            invariant
                0 <= i <= n,
                n == self.body@.len(),
                forall|j: int| 0 <= j < i ==> self.body@[j] != self.head,
            decreases n - i,
        {
            if self.body[i] == self.head {
                proof {
                    assert(self.body@.contains(self.head));
                }
                return Collision::WithSnake;
            }
            i += 1;
        }
        proof {
            assert(!self.body@.contains(self.head));
        }
        if self.head.x <= 0 || self.head.x >= self.width || self.head.y <= 0
            || self.head.y >= self.height {
            return Collision::WithBorder;
        }
        if self.head == self.fruit {
            return Collision::WithFruit;
        }
        Collision::NoCollision
    }

    /// Advances the game by the elapsed real time, exactly as
    /// [`update_rel`] describes. A requested restart rebuilds a fresh
    /// game on the same board and nothing else happens this call. Below
    /// the tick interval only the time accumulator changes; otherwise
    /// exactly one tick fires, however much time has passed: ticks are
    /// not queued or caught up.
    pub fn update(&mut self, dt_micros: u64)
        requires
            old(self).wf(),
        ensures
            final(self).wf(),
            update_rel(*old(self), dt_micros, *final(self)),
    {
        let ghost pre: GameState = *old(self);
        if self.restart_requested {
            let w = self.width;
            let h = self.height;
            *self = GameState::new(w, h);
            return;
        }
        let acc: u64 = if dt_micros > u64::MAX - self.elapsed_micros {
            u64::MAX
        } else {
            self.elapsed_micros + dt_micros
        };
        self.elapsed_micros = acc;
        let interval: u64 = VELOCITY_SCALE_MICROS / (self.velocity as u64);
        if acc < interval {
            return;
        }
        self.direction_lock = false;
        let grow = self.growth_pending;
        let mut ate = false;
        let c = self.is_collision();
        proof {
            assert(spec_collision(*self) == spec_collision(pre));
        }
        match c {
            Collision::WithSnake | Collision::WithBorder => {
                self.game_over = true;
                self.elapsed_micros = 0;
                return;
            }
            Collision::WithFruit => {
                self.growth_action();
                ate = true;
            }
            Collision::NoCollision => {}
        }
        let offs = direction_offset(self.direction);
        let prev_head = self.head;
        self.head = Position { x: prev_head.x + offs.0, y: prev_head.y + offs.1 };
        let mut new_body: Vec<Position> = Vec::new();
        new_body.push(prev_head);
        let last: usize = self.body.len() - 1;
        let mut i: usize = 0;
        while i < last
            invariant
                0 <= i <= last,
                last == self.body@.len() - 1,
                new_body@ == seq![prev_head] + self.body@.take(i as int),
            decreases last - i,
        {
            let b = self.body[i];
            new_body.push(b);
            proof {
                assert(self.body@.take(i + 1) =~= self.body@.take(i as int).push(b));
                assert(new_body@ =~= seq![prev_head] + self.body@.take(i + 1));
            }
            i += 1;
        }
        if grow {
            let tail = self.body[last];
            new_body.push(tail);
            proof {
                assert(self.body@.take(last as int).push(tail) =~= self.body@);
                assert(new_body@ =~= seq![prev_head] + self.body@);
            }
        } else {
            proof {
                assert(new_body@ =~= seq![prev_head] + self.body@.drop_last());
            }
        }
        self.growth_pending = ate;
        self.body = new_body;
        self.elapsed_micros = 0;
        proof {
            assert(final(self).body@ == shifted_body(pre.head, pre.body@, pre.growth_pending));
        }
    }

    /// Position of the head cell.
    pub fn head_position(&self) -> (r: Position)
        ensures
            r == self.head,
    {
        self.head
    }

    /// Body cells, ordered from nearest-to-head to tail.
    pub fn body_positions(&self) -> (r: &Vec<Position>)
        ensures
            r@ == self.body@,
    {
        &self.body
    }

    /// Position of the fruit cell.
    pub fn fruit_position(&self) -> (r: Position)
        ensures
            r == self.fruit,
    {
        self.fruit
    }

    /// Board dimensions in cells, width then height.
    pub fn dimensions(&self) -> (r: (i32, i32))
        ensures
            r.0 == self.width,
            r.1 == self.height,
    {
        (self.width, self.height)
    }

    /// Fruits eaten so far.
    pub fn current_score(&self) -> (r: u32)
        ensures
            r == self.score,
    {
        self.score
    }

    /// Whether the game has ended on a collision.
    pub fn is_game_over(&self) -> (r: bool)
        ensures
            r == self.game_over,
    {
        self.game_over
    }

    /// Direction the head will move on the next tick.
    pub fn current_direction(&self) -> (r: Direction)
        ensures
            r == self.direction,
    {
        self.direction
    }
}

} // verus!

//! The game engine: snake body, apple, velocity, score and state machine,
//! advanced one tick per frame and projected onto a renderable grid.

use vstd::prelude::*;

use crate::constants::pos_on_grid;
use crate::constants::GameState;
use crate::constants::Keyboard;
use crate::constants::PlayField;
use crate::constants::Pos;
use crate::constants::Type;
use crate::constants::CELL_PIXELS;

verus! {

/// The whole mutable state of one game. The body is ordered head first;
/// the velocity is axis-aligned with components in `{-1, 0, 1}`; the wrap
/// flag suppresses a second boundary teleport on the cell reached by one.
pub struct Snake {
    pub game_state: GameState,
    pub wrap: bool,
    pub velocity_x: i32,
    pub velocity_y: i32,
    pub score: i32,
    pub snake_vec: Vec<Pos>,
    pub apple: Pos,
}

impl Snake {
    /// The velocity is a unit step along at most one axis.
    pub open spec fn velocity_ok(self) -> bool {
        &&& -1 <= self.velocity_x <= 1
        &&& -1 <= self.velocity_y <= 1
        &&& self.velocity_x == 0 || self.velocity_y == 0
    }

    /// Well-formed engine state: a non-empty body on the grid, an apple on
    /// the grid, an axis-aligned unit velocity and a non-negative score.
    /// `setup_board` establishes this and every tick preserves it.
    pub open spec fn wf(self) -> bool {
        &&& self.snake_vec@.len() >= 1
        &&& forall|i: int|
            0 <= i < self.snake_vec@.len() ==> pos_on_grid(#[trigger] self.snake_vec@[i])
        &&& pos_on_grid(self.apple)
        &&& self.velocity_ok()
        &&& self.score >= 0
    }

    /// The head of the snake.
    pub open spec fn head(self) -> Pos
        recommends
            self.snake_vec@.len() >= 1,
    {
        self.snake_vec@[0]
    }

    /// The snake is in motion this tick.
    pub open spec fn moving(self) -> bool {
        self.velocity_x != 0 || self.velocity_y != 0
    }

    /// Where the head stands after this tick. The x axis moves first and
    /// may latch or clear the shared wrap flag that the y axis then sees.
    pub open spec fn next_head(self) -> Pos
        recommends
            self.snake_vec@.len() >= 1,
    {
        let wrap_after_x = step_wrap(self.wrap, self.head().x, self.velocity_x);
        Pos {
            x: step_coord(self.wrap, self.head().x, self.velocity_x),
            y: step_coord(wrap_after_x, self.head().y, self.velocity_y),
        }
    }

    /// The wrap flag after this tick's head move.
    pub open spec fn next_wrap(self) -> bool
        recommends
            self.snake_vec@.len() >= 1,
    {
        step_wrap(
            step_wrap(self.wrap, self.head().x, self.velocity_x),
            self.head().y,
            self.velocity_y,
        )
    }

    /// The head lands on the apple this tick.
    pub open spec fn eats(self) -> bool
        recommends
            self.snake_vec@.len() >= 1,
    {
        self.next_head() == self.apple
    }

    /// The body after this tick: shifted, the head moved, and one segment
    /// grown behind the tail when the apple is eaten in motion. Eating at
    /// rest grows nothing: with a zero velocity there is no axis to grow
    /// along, so the event only scores.
    pub open spec fn post_body(self) -> Seq<Pos>
        recommends
            self.snake_vec@.len() >= 1,
    {
        let moved = if self.moving() {
            shifted(self.snake_vec@)
        } else {
            self.snake_vec@
        };
        let moved = moved.update(0, self.next_head());
        if self.eats() && self.moving() {
            moved.push(grown_segment(moved.last(), self.velocity_x, self.velocity_y))
        } else {
            moved
        }
    }

    /// Some body segment covers the cell in column `i`, row `j`.
    pub open spec fn body_at(self, i: int, j: int) -> bool {
        exists|k: int|
            0 <= k < self.snake_vec@.len() && (#[trigger] self.snake_vec@[k]).x == i
                && self.snake_vec@[k].y == j
    }

    /// What the cell in column `i`, row `j` shows for this engine state:
    /// the apple over the snake, the snake over the background, and a
    /// background of walls around the border and emptiness inside.
    pub open spec fn cell_type_at(self, i: int, j: int) -> Type {
        if self.apple.x == i && self.apple.y == j {
            Type::Apple
        } else if self.body_at(i, j) {
            Type::Snake
        } else if i == 0 || i == 39 || j == 0 || j == 39 {
            Type::Wall
        } else {
            Type::Empty
        }
    }

    /// The rendered cell in column `i`, row `j`: its pixel corner derived
    /// from the indices and the cell size, and its projected content.
    pub open spec fn projected_cell(self, i: int, j: int) -> PlayField {
        PlayField {
            x: (i * CELL_PIXELS) as u32,
            y: (j * CELL_PIXELS) as u32,
            field_type: self.cell_type_at(i, j),
        }
    }

    /// Some segment behind the head occupies the head's cell after this
    /// tick; the collision that ends the game.
    pub open spec fn self_collision(self) -> bool
        recommends
            self.snake_vec@.len() >= 1,
    {
        exists|i: int|
            1 <= i < self.post_body().len() && #[trigger] self.post_body()[i] == self.next_head()
    }
}

/// Everything one call of `play_state` does to a well-formed engine in
/// play: the body shifts and the head moves under the wrap-assist rule;
/// eating the apple bumps the score, relocates the apple somewhere in
/// `[1, 40)` on each axis, and grows the body when in motion; a
/// self-collision ends the game. The velocity is the caller's to change and
/// a tick leaves it alone.
pub open spec fn tick_rel(pre: Snake, post: Snake) -> bool {
    &&& pre.wf()
    &&& pre.game_state == GameState::Play
    &&& post.wf()
    &&& post.snake_vec@ == pre.post_body()
    &&& post.wrap == pre.next_wrap()
    &&& post.velocity_x == pre.velocity_x
    &&& post.velocity_y == pre.velocity_y
    &&& post.score == if pre.eats() {
        bumped(pre.score)
    } else {
        pre.score
    }
    &&& if pre.eats() {
        1 <= post.apple.x < 40 && 1 <= post.apple.y < 40
    } else {
        post.apple == pre.apple
    }
    &&& post.game_state == if pre.self_collision() {
        GameState::GameOver
    } else {
        GameState::Play
    }
}

/// One coordinate of the head after a tick. The wrap-assist rule teleports
/// the coordinate between the inner boundary columns 1 and 38 instead of
/// running it into the wall; it fires only when the wrap flag is clear.
/// Otherwise a non-zero velocity moves the coordinate one cell, held inside
/// `[0, 39]` so that the head can never leave the grid.
pub open spec fn step_coord(wrap: bool, c: u32, v: i32) -> u32 {
    if !wrap && c == 1 && v == -1 {
        38u32
    } else if !wrap && c == 38 && v == 1 {
        1u32
    } else if v == 1 && c < 39 {
        (c + 1) as u32
    } else if v == -1 && c > 0 {
        (c - 1) as u32
    } else {
        c
    }
}

/// The wrap flag after one coordinate moves: latched by a wrap-assist
/// teleport, cleared by any move with non-zero velocity, untouched when the
/// axis is at rest. The flag is shared by both axes.
pub open spec fn step_wrap(wrap: bool, c: u32, v: i32) -> bool {
    if !wrap && c == 1 && v == -1 {
        true
    } else if !wrap && c == 38 && v == 1 {
        true
    } else if v != 0 {
        false
    } else {
        wrap
    }
}

/// The body after the shift phase of a tick: every segment but the head
/// takes the position of its predecessor.
pub open spec fn shifted(body: Seq<Pos>) -> Seq<Pos> {
    Seq::new(
        body.len(),
        |i: int|
            if i == 0 {
                body[0]
            } else {
                body[i - 1]
            },
    )
}

/// A freshly grown segment: one step behind `tail` along the axis of the
/// current velocity, held inside the grid should the tail sit on its edge.
pub open spec fn grown_segment(tail: Pos, vx: i32, vy: i32) -> Pos {
    if vx == 1 {
        Pos { x: if tail.x > 0 { (tail.x - 1) as u32 } else { tail.x }, y: tail.y }
    } else if vx == -1 {
        Pos { x: if tail.x < 39 { (tail.x + 1) as u32 } else { tail.x }, y: tail.y }
    } else if vy == 1 {
        Pos { x: tail.x, y: if tail.y > 0 { (tail.y - 1) as u32 } else { tail.y } }
    } else if vy == -1 {
        Pos { x: tail.x, y: if tail.y < 39 { (tail.y + 1) as u32 } else { tail.y } }
    } else {
        tail
    }
}

/// The score after one apple is eaten; it sticks at the integer bound
/// rather than overflow.
pub open spec fn bumped(score: i32) -> i32 {
    if score < i32::MAX {
        (score + 1) as i32
    } else {
        score
    }
}

/// The velocity set by one directional key; an unrecognised key leaves the
/// previous velocity in place. Setting one axis always zeroes the other,
/// which keeps the velocity axis-aligned.
pub open spec fn velocity_for(key: Keyboard, vx: i32, vy: i32) -> (i32, i32) {
    match key {
        Keyboard::Up => (0i32, -1i32),
        Keyboard::Down => (0i32, 1i32),
        Keyboard::Left => (-1i32, 0i32),
        Keyboard::Right => (1i32, 0i32),
        Keyboard::Unknown => (vx, vy),
    }
}

impl Snake {
    /// A fresh engine with an empty board; `setup_board` must run before
    /// the first tick.
    pub fn new() -> (s: Snake)
        ensures
            s.game_state == GameState::Play,
            s.score == 0,
            s.velocity_x == 0,
            s.velocity_y == 0,
            s.snake_vec@.len() == 0,
            s.apple == (Pos { x: 0, y: 0 }),
            !s.wrap,
    {
        Snake {
            game_state: GameState::Play,
            score: 0,
            velocity_y: 0,
            velocity_x: 0,
            snake_vec: Vec::new(),
            apple: Pos { x: 0, y: 0 },
            wrap: false,
        }
    }

    /// Maps a directional input to a velocity vector and changes nothing
    /// else. There is deliberately no guard against reversing straight into
    /// the neck: the next tick then reports the self-collision.
    pub fn parse_event(&mut self, key: Keyboard)
        ensures
            (final(self).velocity_x, final(self).velocity_y) == velocity_for(
                key,
                old(self).velocity_x,
                old(self).velocity_y,
            ),
            final(self).game_state == old(self).game_state,
            final(self).wrap == old(self).wrap,
            final(self).score == old(self).score,
            final(self).snake_vec@ == old(self).snake_vec@,
            final(self).apple == old(self).apple,
            old(self).wf() ==> final(self).wf(),
    {
        match key {
            Keyboard::Up => {
                self.velocity_y = -1;
                self.velocity_x = 0;
            },
            Keyboard::Down => {
                self.velocity_y = 1;
                self.velocity_x = 0;
            },
            Keyboard::Left => {
                self.velocity_y = 0;
                self.velocity_x = -1;
            },
            Keyboard::Right => {
                self.velocity_y = 0;
                self.velocity_x = 1;
            },
            Keyboard::Unknown => {},
        }
    }

    /// Resets every piece of mutable engine state for a fresh round: score
    /// 0, velocity at rest, wrap flag clear, a two-segment body with the
    /// head on (20, 20) and the tail below it on (20, 21), a randomized
    /// apple moved off the body, and the state back in play. Should the
    /// apple land on one of the two starting cells it is shifted one column
    /// left: a restart owes the player an apple that is not already eaten.
    pub fn setup_board(&mut self)
        ensures
            final(self).wf(),
            final(self).score == 0,
            final(self).velocity_x == 0,
            final(self).velocity_y == 0,
            !final(self).wrap,
            final(self).game_state == GameState::Play,
            final(self).snake_vec@ == seq![(Pos { x: 20, y: 20 }), (Pos { x: 20, y: 21 })],
            1 <= final(self).apple.x < 40,
            1 <= final(self).apple.y < 40,
            forall|i: int|
                0 <= i < final(self).snake_vec@.len()
                    ==> final(self).apple != #[trigger] final(self).snake_vec@[i],
    {
        self.score = 0;
        self.velocity_x = 0;
        self.velocity_y = 0;
        self.wrap = false;
        self.snake_vec.clear();
        self.snake_vec.push(Pos { x: 20, y: 20 });
        self.snake_vec.push(Pos { x: 20, y: 21 });
        self.set_apple();
        if self.apple.x == 20 && (self.apple.y == 20 || self.apple.y == 21) {
            self.apple.x = 19;
        }
        self.game_state = GameState::Play;
    }

    /// Relocates the apple, each axis drawn independently from `[1, 40)`.
    /// Row and column 0 are therefore never hit, but column or row 39 — the
    /// far wall — can be.
    fn set_apple(&mut self)
        ensures
            1 <= final(self).apple.x < 40,
            1 <= final(self).apple.y < 40,
            final(self).game_state == old(self).game_state,
            final(self).wrap == old(self).wrap,
            final(self).velocity_x == old(self).velocity_x,
            final(self).velocity_y == old(self).velocity_y,
            final(self).score == old(self).score,
            final(self).snake_vec@ == old(self).snake_vec@,
    {
        self.apple.x = crate::rng::random_coord();
        self.apple.y = crate::rng::random_coord();
    }

    /// Appends one segment behind the tail along the velocity axis; at a
    /// zero velocity nothing grows.
    fn add_snake_segment(&mut self)
        requires
            old(self).snake_vec@.len() >= 1,
            old(self).velocity_ok(),
        ensures
            final(self).snake_vec@ == if old(self).moving() {
                old(self).snake_vec@.push(
                    grown_segment(
                        old(self).snake_vec@.last(),
                        old(self).velocity_x,
                        old(self).velocity_y,
                    ),
                )
            } else {
                old(self).snake_vec@
            },
            final(self).game_state == old(self).game_state,
            final(self).wrap == old(self).wrap,
            final(self).velocity_x == old(self).velocity_x,
            final(self).velocity_y == old(self).velocity_y,
            final(self).score == old(self).score,
            final(self).apple == old(self).apple,
    {
        let tail = self.snake_vec[self.snake_vec.len() - 1];
        if self.velocity_x == 1 {
            let nx = if tail.x > 0 {
                tail.x - 1
            } else {
                tail.x
            };
            self.snake_vec.push(Pos { x: nx, y: tail.y });
        } else if self.velocity_x == -1 {
            let nx = if tail.x < 39 {
                tail.x + 1
            } else {
                tail.x
            };
            self.snake_vec.push(Pos { x: nx, y: tail.y });
        } else if self.velocity_y == 1 {
            let ny = if tail.y > 0 {
                tail.y - 1
            } else {
                tail.y
            };
            self.snake_vec.push(Pos { x: tail.x, y: ny });
        } else if self.velocity_y == -1 {
            let ny = if tail.y < 39 {
                tail.y + 1
            } else {
                tail.y
            };
            self.snake_vec.push(Pos { x: tail.x, y: ny });
        }
    }

    /// The shift phase of a tick: while in motion, every segment but the
    /// head copies its predecessor's position, walked from the tail so that
    /// no position is overwritten before it is read.
    fn move_snake_parts(&mut self)
        requires
            old(self).snake_vec@.len() >= 1,
        ensures
            final(self).snake_vec@ == if old(self).moving() {
                shifted(old(self).snake_vec@)
            } else {
                old(self).snake_vec@
            },
            final(self).game_state == old(self).game_state,
            final(self).wrap == old(self).wrap,
            final(self).velocity_x == old(self).velocity_x,
            final(self).velocity_y == old(self).velocity_y,
            final(self).score == old(self).score,
            final(self).apple == old(self).apple,
    {
        if self.velocity_x != 0 || self.velocity_y != 0 {
            let ghost orig = self.snake_vec@;
            let mut pos: usize = self.snake_vec.len() - 1;
            while pos >= 1
                invariant
                    self.snake_vec@.len() == orig.len(),
                    pos < orig.len(),
                    forall|i: int| pos < i < orig.len() ==> self.snake_vec@[i] == orig[i - 1],
                    forall|i: int| 0 <= i <= pos ==> self.snake_vec@[i] == orig[i],
                    self.game_state == old(self).game_state,
                    self.wrap == old(self).wrap,
                    self.velocity_x == old(self).velocity_x,
                    self.velocity_y == old(self).velocity_y,
                    self.score == old(self).score,
                    self.apple == old(self).apple,
                decreases pos,
            {
                let predecessor = self.snake_vec[pos - 1];
                self.snake_vec.set(pos, predecessor);
                pos = pos - 1;
            }
            proof {
                assert(self.snake_vec@ =~= shifted(orig));
            }
        }
    }

    /// One coordinate of the head move; updates the shared wrap flag as a
    /// side effect, exactly as `step_coord` and `step_wrap` describe.
    fn move_snake(&mut self, velocity: i32, coordinate: u32) -> (r: u32)
        requires
            coordinate < 40,
        ensures
            r == step_coord(old(self).wrap, coordinate, velocity),
            r < 40,
            final(self).wrap == step_wrap(old(self).wrap, coordinate, velocity),
            final(self).game_state == old(self).game_state,
            final(self).velocity_x == old(self).velocity_x,
            final(self).velocity_y == old(self).velocity_y,
            final(self).score == old(self).score,
            final(self).snake_vec@ == old(self).snake_vec@,
            final(self).apple == old(self).apple,
    {
        let mut coordinate_new: u32 = coordinate;
        if !self.wrap && coordinate == 1 && velocity == -1 {
            coordinate_new = 38;
            self.wrap = true;
        } else if !self.wrap && coordinate == 38 && velocity == 1 {
            coordinate_new = 1;
            self.wrap = true;
        } else {
            if velocity != 0 {
                if velocity == 1 {
                    if coordinate < 39 {
                        coordinate_new = coordinate + 1;
                    }
                } else if velocity == -1 {
                    if coordinate > 0 {
                        coordinate_new = coordinate - 1;
                    }
                }
                self.wrap = false;
            }
        }
        coordinate_new
    }

    /// One simulation tick, to be called once per frame while in play: the
    /// body shifts, the head moves under the wrap-assist rule, an apple on
    /// the head's cell is eaten, and a body segment on the head's cell ends
    /// the game. `tick_rel` states the whole transition; the returned state
    /// tells the caller whether to keep simulating.
    pub fn play_state(&mut self) -> (r: GameState)
        requires
            old(self).wf(),
            old(self).game_state == GameState::Play,
        ensures
            tick_rel(*old(self), *final(self)),
            r == final(self).game_state,
    {
        self.move_snake_parts();

        let mut snake_elem = self.snake_vec[0];
        snake_elem.x = self.move_snake(self.velocity_x, snake_elem.x);
        snake_elem.y = self.move_snake(self.velocity_y, snake_elem.y);
        self.snake_vec.set(0, snake_elem);

        proof {
            assert(self.snake_vec@ =~= if old(self).moving() {
                shifted(old(self).snake_vec@).update(0, old(self).next_head())
            } else {
                old(self).snake_vec@.update(0, old(self).next_head())
            });
        }

        if self.snake_vec[0].x == self.apple.x && self.snake_vec[0].y == self.apple.y {
            self.set_apple();
            if self.score < i32::MAX {
                self.score = self.score + 1;
            }
            self.add_snake_segment();
        }

        proof {
            assert(self.snake_vec@ =~= old(self).post_body());
        }

        let head = self.snake_vec[0];
        let mut pos: usize = self.snake_vec.len() - 1;
        while pos >= 1
            invariant
                self.snake_vec@.len() >= 1,
                pos < self.snake_vec@.len(),
                head == self.snake_vec@[0],
                self.game_state == if exists|i: int|
                    pos < i < self.snake_vec@.len() && #[trigger] self.snake_vec@[i] == head {
                    GameState::GameOver
                } else {
                    GameState::Play
                },
                self.wrap == old(self).next_wrap(),
                self.velocity_x == old(self).velocity_x,
                self.velocity_y == old(self).velocity_y,
                self.score == if old(self).eats() {
                    bumped(old(self).score)
                } else {
                    old(self).score
                },
                self.snake_vec@ == old(self).post_body(),
                if old(self).eats() {
                    1 <= self.apple.x < 40 && 1 <= self.apple.y < 40
                } else {
                    self.apple == old(self).apple
                },
            decreases pos,
        {
            let segment = self.snake_vec[pos];
            if head.x == segment.x && head.y == segment.y {
                self.game_state = GameState::GameOver;
            }
            pos = pos - 1;
        }

        self.game_state
    }

    /// Whether some body segment occupies the cell `(x, y)`.
    fn body_covers(&self, x: u32, y: u32) -> (r: bool)
        ensures
            r == self.body_at(x as int, y as int),
    {
        let mut k: usize = 0;
        while k < self.snake_vec.len()
            invariant
                k <= self.snake_vec@.len(),
                forall|m: int|
                    0 <= m < k ==> !((#[trigger] self.snake_vec@[m]).x == x && self.snake_vec@[m].y
                        == y),
            decreases self.snake_vec@.len() - k,
        {
            let segment = self.snake_vec[k];
            if segment.x == x && segment.y == y {
                return true;
            }
            k = k + 1;
        }
        false
    }

    /// Projects the engine state onto a fresh 40 x 40 grid of rendered
    /// cells, one column vector per column index: walls around the border,
    /// emptiness inside, the body stamped as snake and the apple stamped
    /// last. The grid is a derived view, rebuilt on every call from the
    /// engine state alone, so projecting the same state twice yields the
    /// same grid cell for cell.
    pub fn draw_elements(&self) -> (grid: Vec<Vec<PlayField>>)
        ensures
            grid@.len() == 40,
            forall|i: int| 0 <= i < 40 ==> (#[trigger] grid@[i])@.len() == 40,
            forall|i: int, j: int|
                0 <= i < 40 && 0 <= j < 40 ==> (#[trigger] grid@[i]@[j]) == self.projected_cell(
                    i,
                    j,
                ),
    {
        let mut grid: Vec<Vec<PlayField>> = Vec::new();
        let mut i: u32 = 0;
        while i < 40
            invariant
                grid@.len() == i,
                i <= 40,
                forall|c: int| 0 <= c < i ==> (#[trigger] grid@[c])@.len() == 40,
                forall|c: int, r: int|
                    0 <= c < i && 0 <= r < 40 ==> (#[trigger] grid@[c]@[r]) == self.projected_cell(
                        c,
                        r,
                    ),
            decreases 40 - i,
        {
            let mut column: Vec<PlayField> = Vec::new();
            let mut j: u32 = 0;
            while j < 40
                invariant
                    column@.len() == j,
                    j <= 40,
                    i < 40,
                    forall|r: int|
                        0 <= r < j ==> (#[trigger] column@[r]) == self.projected_cell(i as int, r),
                decreases 40 - j,
            {
                let field_type = if self.apple.x == i && self.apple.y == j {
                    Type::Apple
                } else if self.body_covers(i, j) {
                    Type::Snake
                } else if i == 0 || i == 39 || j == 0 || j == 39 {
                    Type::Wall
                } else {
                    Type::Empty
                };
                column.push(PlayField { x: i * CELL_PIXELS, y: j * CELL_PIXELS, field_type });
                j = j + 1;
            }
            grid.push(column);
            i = i + 1;
        }
        grid
    }
}

} // verus!

//! The snake simulation aggregate and its tick rules.

use vstd::prelude::*;

use crate::geometry::{Pos, Direction, dir_dx, dir_dy, step_dx, step_dy, opposite, in_bounds, step_offset};
use crate::rng::{rng_from_seed, rng_range};

verus! {

/// Largest accepted grid half-extent, in cells.
pub const MAX_HALF_EXTENT: i64 = 1_000_000;

/// Largest accepted cell size, in world units per cell.
pub const MAX_CELL_SIZE: i64 = 1_000_000;

/// Why a simulation could not be constructed.
#[derive(Clone, Copy, Debug, PartialEq, Eq, Structural)]
pub enum ConfigError {
    /// The grid half-width was not between 1 and `MAX_HALF_EXTENT` cells.
    HalfWidthOutOfRange,
    /// The grid half-height was not between 1 and `MAX_HALF_EXTENT` cells.
    HalfHeightOutOfRange,
    /// The cell size was not between 1 and `MAX_CELL_SIZE` world units.
    CellSizeOutOfRange,
    /// The requested fruit cell lies outside the grid.
    FruitOutOfBounds,
    /// The requested fruit cell sits on the snake head's starting cell.
    FruitOnHead,
}

/// The one-way state machine of a session: the game runs until it ends.
#[derive(Clone, Copy, Debug, PartialEq, Eq, Structural)]
pub enum GameState {
    Running,
    GameOver,
}

/// The whole simulation: grid configuration, snake, fruit, and the
/// generator that places new fruit.
pub struct SnakeSimulation {
    /// Cells from the center column to the grid's edge.
    pub half_width: i64,
    /// Cells from the center row to the grid's edge.
    pub half_height: i64,
    /// World units per cell, for the rendering accessors.
    pub cell_size: i64,
    /// The head's cell.
    pub head: Pos,
    /// The last direction submitted, if any; the next tick honours it.
    pub direction: Option<Direction>,
    /// Body segment cells, head-to-tail.
    pub body: Vec<Pos>,
    /// The fruit's cell.
    pub fruit: Pos,
    /// Whether the game is still running.
    pub state: GameState,
    /// Source of fruit cells.
    pub rng: rand::rngs::SmallRng,
}

impl SnakeSimulation {
    /// The configuration lies within the accepted ranges.
    pub open spec fn config_ok(self) -> bool {
        &&& 1 <= self.half_width <= MAX_HALF_EXTENT
        &&& 1 <= self.half_height <= MAX_HALF_EXTENT
        &&& 1 <= self.cell_size <= MAX_CELL_SIZE
    }

    /// Well-formedness, established by the constructors and preserved by
    /// every operation:
    /// - the head never strays more than one cell beyond the grid, and sits
    ///   inside it while the game runs;
    /// - the fruit is always inside the grid, and off the head while the
    ///   game runs;
    /// - every body segment is within one cell of the grid, and all but the
    ///   most recently grown tail segment are inside it.
    pub open spec fn wf(self) -> bool {
        &&& self.config_ok()
        &&& -(self.half_width + 1) <= self.head.x <= self.half_width + 1
        &&& -(self.half_height + 1) <= self.head.y <= self.half_height + 1
        &&& self.state is Running ==> in_bounds(self.head, self.half_width as int, self.half_height as int)
        &&& in_bounds(self.fruit, self.half_width as int, self.half_height as int)
        &&& self.state is Running ==> self.fruit != self.head
        &&& forall|k: int| 0 <= k < self.body@.len() ==> {
                &&& -(self.half_width + 1) <= (#[trigger] self.body@[k]).x <= self.half_width + 1
                &&& -(self.half_height + 1) <= self.body@[k].y <= self.half_height + 1
            }
        &&& forall|k: int| 0 <= k < self.body@.len() - 1 ==>
                in_bounds(#[trigger] self.body@[k], self.half_width as int, self.half_height as int)
    }

    /// Column the head occupies after the next tick's move.
    pub open spec fn next_head_x(self) -> int {
        self.head.x + step_dx(self.direction)
    }

    /// Row the head occupies after the next tick's move.
    pub open spec fn next_head_y(self) -> int {
        self.head.y + step_dy(self.direction)
    }

    /// The body after the follow-the-leader shift of one tick: segment 0
    /// takes the head's pre-tick cell, and every other segment takes its
    /// predecessor's pre-tick cell.  The length does not change here.
    pub open spec fn shifted_body(self) -> Seq<Pos> {
        (seq![self.head] + self.body@).take(self.body@.len() as int)
    }

    /// The next tick ends the game by self-collision: some body segment's
    /// post-shift cell coincides with the head's post-move cell.
    pub open spec fn next_self_collision(self) -> bool {
        exists|k: int|
            0 <= k < self.body@.len()
                && (#[trigger] self.shifted_body()[k]).x == self.next_head_x()
                && self.shifted_body()[k].y == self.next_head_y()
    }

    /// The next tick ends the game on the wall: the moved head leaves the grid.
    pub open spec fn next_out_of_bounds(self) -> bool {
        ||| !(-self.half_width <= self.next_head_x() <= self.half_width)
        ||| !(-self.half_height <= self.next_head_y() <= self.half_height)
    }

    /// The next tick is fatal, by self-collision or by the wall.
    pub open spec fn next_dies(self) -> bool {
        self.next_self_collision() || self.next_out_of_bounds()
    }

    /// The next tick survives and the moved head lands on the fruit.
    pub open spec fn next_pickup(self) -> bool {
        &&& !self.next_dies()
        &&& self.next_head_x() == self.fruit.x
        &&& self.next_head_y() == self.fruit.y
    }

    /// Column of the tail once the shift is done; with no body, the tail is
    /// the moved head itself.
    pub open spec fn shifted_tail_x(self) -> int {
        if self.body@.len() == 0 {
            self.next_head_x()
        } else {
            self.shifted_body().last().x as int
        }
    }

    /// Row of the tail once the shift is done.
    pub open spec fn shifted_tail_y(self) -> int {
        if self.body@.len() == 0 {
            self.next_head_y()
        } else {
            self.shifted_body().last().y as int
        }
    }

    /// Cell where a segment grows on a pickup: one cell behind the shifted
    /// tail, against the direction of travel.
    pub open spec fn grown_segment(self) -> Pos {
        Pos {
            x: (self.shifted_tail_x() - step_dx(self.direction)) as i64,
            y: (self.shifted_tail_y() - step_dy(self.direction)) as i64,
        }
    }
}

impl SnakeSimulation {
    /// Starts a game: head at the origin with no direction yet, an empty
    /// body, and a fruit drawn from the seeded generator, never on the head.
    /// Rejects a configuration outside the accepted ranges, naming the
    /// first offending option.
    pub fn new(half_width: i64, half_height: i64, cell_size: i64, seed: u64) -> (r: Result<
        SnakeSimulation,
        ConfigError,
    >)
        ensures
            r is Ok <==> (1 <= half_width <= MAX_HALF_EXTENT && 1 <= half_height
                <= MAX_HALF_EXTENT && 1 <= cell_size <= MAX_CELL_SIZE),
            r matches Ok(s) ==> {
                &&& s.wf()
                &&& s.half_width == half_width
                &&& s.half_height == half_height
                &&& s.cell_size == cell_size
                &&& s.state is Running
                &&& s.head == (Pos { x: 0, y: 0 })
                &&& s.direction is None
                &&& s.body@ == Seq::<Pos>::empty()
                &&& in_bounds(s.fruit, half_width as int, half_height as int)
                &&& s.fruit != (Pos { x: 0, y: 0 })
            },
            r matches Err(e) ==> e == (if !(1 <= half_width <= MAX_HALF_EXTENT) {
                ConfigError::HalfWidthOutOfRange
            } else if !(1 <= half_height <= MAX_HALF_EXTENT) {
                ConfigError::HalfHeightOutOfRange
            } else {
                ConfigError::CellSizeOutOfRange
            }),
    {
        if half_width < 1 || half_width > MAX_HALF_EXTENT {
            return Err(ConfigError::HalfWidthOutOfRange);
        }
        if half_height < 1 || half_height > MAX_HALF_EXTENT {
            return Err(ConfigError::HalfHeightOutOfRange);
        }
        if cell_size < 1 || cell_size > MAX_CELL_SIZE {
            return Err(ConfigError::CellSizeOutOfRange);
        }
        let head = Pos { x: 0, y: 0 };
        let mut rng = rng_from_seed(seed);
        let fruit = place_fruit(&mut rng, head, half_width, half_height);
        Ok(
            SnakeSimulation {
                half_width,
                half_height,
                cell_size,
                head,
                direction: None,
                body: Vec::new(),
                fruit,
                state: GameState::Running,
                rng,
            },
        )
    }

    /// Starts a game like [`SnakeSimulation::new`], but with the first
    /// fruit at a caller-chosen cell, for reproducible sessions.  The cell
    /// must lie on the grid and off the head's starting cell at the origin.
    pub fn with_fruit(
        half_width: i64,
        half_height: i64,
        cell_size: i64,
        seed: u64,
        fruit: Pos,
    ) -> (r: Result<SnakeSimulation, ConfigError>)
        ensures
            r is Ok <==> {
                &&& 1 <= half_width <= MAX_HALF_EXTENT
                &&& 1 <= half_height <= MAX_HALF_EXTENT
                &&& 1 <= cell_size <= MAX_CELL_SIZE
                &&& in_bounds(fruit, half_width as int, half_height as int)
                &&& fruit != (Pos { x: 0, y: 0 })
            },
            r matches Ok(s) ==> {
                &&& s.wf()
                &&& s.half_width == half_width
                &&& s.half_height == half_height
                &&& s.cell_size == cell_size
                &&& s.state is Running
                &&& s.head == (Pos { x: 0, y: 0 })
                &&& s.direction is None
                &&& s.body@ == Seq::<Pos>::empty()
                &&& s.fruit == fruit
            },
            r matches Err(e) ==> e == (if !(1 <= half_width <= MAX_HALF_EXTENT) {
                ConfigError::HalfWidthOutOfRange
            } else if !(1 <= half_height <= MAX_HALF_EXTENT) {
                ConfigError::HalfHeightOutOfRange
            } else if !(1 <= cell_size <= MAX_CELL_SIZE) {
                ConfigError::CellSizeOutOfRange
            } else if !in_bounds(fruit, half_width as int, half_height as int) {
                ConfigError::FruitOutOfBounds
            } else {
                ConfigError::FruitOnHead
            }),
    {
        if half_width < 1 || half_width > MAX_HALF_EXTENT {
            return Err(ConfigError::HalfWidthOutOfRange);
        }
        if half_height < 1 || half_height > MAX_HALF_EXTENT {
            return Err(ConfigError::HalfHeightOutOfRange);
        }
        if cell_size < 1 || cell_size > MAX_CELL_SIZE {
            return Err(ConfigError::CellSizeOutOfRange);
        }
        if fruit.x < -half_width || fruit.x > half_width || fruit.y < -half_height || fruit.y
            > half_height {
            return Err(ConfigError::FruitOutOfBounds);
        }
        if fruit.x == 0 && fruit.y == 0 {
            return Err(ConfigError::FruitOnHead);
        }
        Ok(
            SnakeSimulation {
                half_width,
                half_height,
                cell_size,
                head: Pos { x: 0, y: 0 },
                direction: None,
                body: Vec::new(),
                fruit,
                state: GameState::Running,
                rng: rng_from_seed(seed),
            },
        )
    }

    /// Records the most recent directional input; only the last direction
    /// set before a tick is honoured.  Ignored once the game is over.
    pub fn set_direction(&mut self, d: Direction)
        requires
            old(self).wf(),
        ensures
            final(self).wf(),
            old(self).state is GameOver ==> *final(self) == *old(self),
            old(self).state is Running ==> {
                &&& final(self).direction == Some(d)
                &&& final(self).half_width == old(self).half_width
                &&& final(self).half_height == old(self).half_height
                &&& final(self).cell_size == old(self).cell_size
                &&& final(self).head == old(self).head
                &&& final(self).body@ == old(self).body@
                &&& final(self).fruit == old(self).fruit
                &&& final(self).state == old(self).state
                &&& final(self).rng == old(self).rng
            },
    {
        if matches!(self.state, GameState::GameOver) {
            return ;
        }
        self.direction = Some(d);
    }

    /// Advances the simulation one step: moves the head one cell along the
    /// last direction set (not at all while none has been), shifts every
    /// body segment onto its predecessor's previous cell, then ends the
    /// game if a segment's new cell coincides with the head's or the head
    /// left the grid.  If the game survives and the head landed on the
    /// fruit, the fruit moves to a fresh random cell off the head and the
    /// body grows by one segment placed one cell behind the tail, against
    /// the direction of travel.  Does nothing once the game is over.
    pub fn tick(&mut self)
        requires
            old(self).wf(),
        ensures
            final(self).wf(),
            final(self).half_width == old(self).half_width,
            final(self).half_height == old(self).half_height,
            final(self).cell_size == old(self).cell_size,
            final(self).direction == old(self).direction,
            old(self).state is GameOver ==> *final(self) == *old(self),
            old(self).state is Running ==> {
                &&& final(self).head.x == old(self).next_head_x()
                &&& final(self).head.y == old(self).next_head_y()
                &&& (final(self).state is GameOver <==> old(self).next_dies())
                &&& final(self).body@ == (if old(self).next_pickup() {
                    old(self).shifted_body().push(old(self).grown_segment())
                } else {
                    old(self).shifted_body()
                })
                &&& (old(self).next_pickup() ==> final(self).fruit != old(self).fruit
                    && in_bounds(
                    final(self).fruit,
                    old(self).half_width as int,
                    old(self).half_height as int,
                ))
                &&& (!old(self).next_pickup() ==> final(self).fruit == old(self).fruit)
            },
            // Growth: a pickup tick adds exactly one segment; any other tick
            // keeps the count.
            old(self).state is Running && old(self).next_pickup() ==> final(self).body@.len()
                == old(self).body@.len() + 1,
            old(self).state is Running && !old(self).next_pickup() ==> final(self).body@.len()
                == old(self).body@.len(),
            // Follow: after a running tick, segment 0 holds the head's
            // pre-tick cell and every later segment its predecessor's.
            old(self).state is Running && old(self).body@.len() > 0 ==> final(self).body@[0]
                == old(self).head,
            old(self).state is Running ==> forall|k: int|
                1 <= k < old(self).body@.len() ==> #[trigger] final(self).body@[k] == old(
                    self,
                ).body@[k - 1],
    {
        if matches!(self.state, GameState::GameOver) {
            return ;
        }
        let ghost pre = *self;
        let (sdx, sdy): (i64, i64) = step_offset(self.direction);
        let prev_head = self.head;
        self.head = Pos { x: self.head.x + sdx, y: self.head.y + sdy };
        let ghost moved_head = self.head;

        let n: usize = self.body.len();
        let mut prev = prev_head;
        let mut collided = false;
        let mut i: usize = 0;
        while i < n
            invariant
                0 <= i <= n,
                n == self.body@.len(),
                n == pre.body@.len(),
                pre.wf(),
                pre.state is Running,
                self.half_width == pre.half_width,
                self.half_height == pre.half_height,
                self.cell_size == pre.cell_size,
                self.head == moved_head,
                moved_head.x == pre.next_head_x(),
                moved_head.y == pre.next_head_y(),
                self.fruit == pre.fruit,
                self.state == pre.state,
                self.direction == pre.direction,
                self.rng == pre.rng,
                prev == (seq![pre.head] + pre.body@)[i as int],
                forall|k: int| 0 <= k < i ==> #[trigger] self.body@[k] == pre.shifted_body()[k],
                forall|k: int| i <= k < n ==> #[trigger] self.body@[k] == pre.body@[k],
                collided <==> exists|k: int|
                    0 <= k < i && (#[trigger] pre.shifted_body()[k]).x == moved_head.x
                        && pre.shifted_body()[k].y == moved_head.y,
            decreases n - i,
        {
            let moved = prev;
            prev = self.body[i];
            self.body.set(i, moved);
            proof {
                assert(pre.shifted_body()[i as int] == moved);
            }
            if moved.x == self.head.x && moved.y == self.head.y {
                collided = true;
            }
            i += 1;
        }
        proof {
            assert(self.body@ =~= pre.shifted_body());
            assert(collided == pre.next_self_collision());
            // every shifted segment lies on the grid: segment 0 is the old
            // head, later ones are old segments that were not the tail
            assert forall|k: int| 0 <= k < self.body@.len() implies in_bounds(
                #[trigger] self.body@[k],
                pre.half_width as int,
                pre.half_height as int,
            ) by {
                if k > 0 {
                    assert(self.body@[k] == pre.body@[k - 1]);
                }
            }
        }

        let off_grid = self.head.x < -self.half_width || self.head.x > self.half_width
            || self.head.y < -self.half_height || self.head.y > self.half_height;
        proof {
            assert(off_grid == pre.next_out_of_bounds());
        }
        if collided || off_grid {
            self.state = GameState::GameOver;
            return ;
        }

        if self.head.x == self.fruit.x && self.head.y == self.fruit.y {
            let avoid = self.head;
            let new_fruit = place_fruit(&mut self.rng, avoid, self.half_width, self.half_height);
            self.fruit = new_fruit;
            let tail: Pos = if self.body.len() == 0 {
                self.head
            } else {
                self.body[self.body.len() - 1]
            };
            proof {
                assert(tail.x == pre.shifted_tail_x());
                assert(tail.y == pre.shifted_tail_y());
            }
            let seg = Pos { x: tail.x - sdx, y: tail.y - sdy };
            self.body.push(seg);
            proof {
                assert(seg == pre.grown_segment());
                assert(self.body@ =~= pre.shifted_body().push(pre.grown_segment()));
            }
        }
    }

    /// True once the simulation has reached its terminal state.
    pub fn is_game_over(&self) -> (r: bool)
        ensures
            r == (self.state is GameOver),
    {
        matches!(self.state, GameState::GameOver)
    }

    /// The head's position in world units: its cell scaled by the cell size.
    pub fn head_position(&self) -> (r: Pos)
        requires
            self.wf(),
        ensures
            r.x == self.head.x * self.cell_size,
            r.y == self.head.y * self.cell_size,
    {
        proof {
            lemma_scale_bound(self.head.x as int, self.cell_size as int);
            lemma_scale_bound(self.head.y as int, self.cell_size as int);
        }
        Pos { x: self.head.x * self.cell_size, y: self.head.y * self.cell_size }
    }

    /// The fruit's position in world units: its cell scaled by the cell size.
    pub fn fruit_position(&self) -> (r: Pos)
        requires
            self.wf(),
        ensures
            r.x == self.fruit.x * self.cell_size,
            r.y == self.fruit.y * self.cell_size,
    {
        proof {
            lemma_scale_bound(self.fruit.x as int, self.cell_size as int);
            lemma_scale_bound(self.fruit.y as int, self.cell_size as int);
        }
        Pos { x: self.fruit.x * self.cell_size, y: self.fruit.y * self.cell_size }
    }

    /// The body segments' positions in world units, head-to-tail: each
    /// segment's cell scaled by the cell size.
    pub fn body_positions(&self) -> (r: Vec<Pos>)
        requires
            self.wf(),
        ensures
            r@.len() == self.body@.len(),
            forall|k: int|
                #![auto]
                0 <= k < self.body@.len() ==> r@[k].x == self.body@[k].x * self.cell_size
                    && r@[k].y == self.body@[k].y * self.cell_size,
    {
        let mut out: Vec<Pos> = Vec::new();
        let mut i: usize = 0;
        while i < self.body.len()
            invariant
                self.wf(),
                0 <= i <= self.body@.len(),
                out@.len() == i,
                forall|k: int|
                    #![auto]
                    0 <= k < i ==> out@[k].x == self.body@[k].x * self.cell_size && out@[k].y
                        == self.body@[k].y * self.cell_size,
            decreases self.body@.len() - i,
        {
            let p = self.body[i];
            proof {
                lemma_scale_bound(p.x as int, self.cell_size as int);
                lemma_scale_bound(p.y as int, self.cell_size as int);
            }
            out.push(Pos { x: p.x * self.cell_size, y: p.y * self.cell_size });
            i += 1;
        }
        out
    }
}

/// Bounds invariant: while the game is running, the head lies within the
/// grid, in cells and — scaled by the cell size — in world units alike.
pub proof fn lemma_head_in_bounds(s: SnakeSimulation)
    requires
        s.wf(),
        s.state is Running,
    ensures
        in_bounds(s.head, s.half_width as int, s.half_height as int),
        -(s.half_width * s.cell_size) <= s.head.x * s.cell_size <= s.half_width * s.cell_size,
        -(s.half_height * s.cell_size) <= s.head.y * s.cell_size <= s.half_height * s.cell_size,
{
    assert(-(s.half_width * s.cell_size) <= s.head.x * s.cell_size <= s.half_width
        * s.cell_size) by (nonlinear_arith)
        requires
            -s.half_width <= s.head.x <= s.half_width,
            s.cell_size >= 1,
    ;
    assert(-(s.half_height * s.cell_size) <= s.head.y * s.cell_size <= s.half_height
        * s.cell_size) by (nonlinear_arith)
        requires
            -s.half_height <= s.head.y <= s.half_height,
            s.cell_size >= 1,
    ;
}

/// Wall termination: with the head on the rightmost column and the
/// direction set to the right, the next tick is fatal — and `tick`'s
/// contract turns a fatal tick into the `GameOver` state.
pub proof fn lemma_wall_termination(s: SnakeSimulation)
    requires
        s.wf(),
        s.state is Running,
        s.head.x == s.half_width,
        s.direction == Some(Direction::Right),
    ensures
        s.next_dies(),
{
    assert(s.next_head_x() == s.half_width + 1);
}

/// Self-collision termination: with at least two body segments and the
/// first segment directly behind the head — where it trails after any
/// moving tick — reversing the direction makes the next tick fatal: the
/// head's new cell coincides with segment 1's post-shift cell.
pub proof fn lemma_reversal_self_collision(s: SnakeSimulation, d: Direction)
    requires
        s.wf(),
        s.state is Running,
        s.direction == Some(d),
        s.body@.len() >= 2,
        s.body@[0].x == s.head.x - dir_dx(d),
        s.body@[0].y == s.head.y - dir_dy(d),
    ensures
        ({
            let r = SnakeSimulation { direction: Some(opposite(d)), ..s };
            r.next_dies()
        }),
{
    let r = SnakeSimulation { direction: Some(opposite(d)), ..s };
    assert(dir_dx(opposite(d)) == -dir_dx(d));
    assert(dir_dy(opposite(d)) == -dir_dy(d));
    assert(r.shifted_body()[1] == s.body@[0]);
    assert((r.shifted_body()[1]).x == r.next_head_x());
    assert((r.shifted_body()[1]).y == r.next_head_y());
    assert(r.next_self_collision());
}

/// A cell coordinate at most one cell off the grid, scaled by the cell
/// size, stays far inside the `i64` range.
proof fn lemma_scale_bound(c: int, m: int)
    requires
        -(MAX_HALF_EXTENT + 1) <= c <= MAX_HALF_EXTENT + 1,
        1 <= m <= MAX_CELL_SIZE,
    ensures
        -(MAX_HALF_EXTENT + 1) * MAX_CELL_SIZE <= c * m <= (MAX_HALF_EXTENT + 1) * MAX_CELL_SIZE,
{
    assert(-(MAX_HALF_EXTENT + 1) * MAX_CELL_SIZE <= c * m <= (MAX_HALF_EXTENT + 1)
        * MAX_CELL_SIZE) by (nonlinear_arith)
        requires
            -(MAX_HALF_EXTENT + 1) <= c <= MAX_HALF_EXTENT + 1,
            1 <= m <= MAX_CELL_SIZE,
    ;
}

/// Steers a drawn fruit cell off the cell it must not occupy: if the draw
/// hit `avoid`, the fruit moves one column sideways, staying on the grid;
/// any other draw is kept as it is.
fn adjust_fruit(candidate: Pos, avoid: Pos, half_width: i64, half_height: i64) -> (r: Pos)
    requires
        1 <= half_width <= MAX_HALF_EXTENT,
        1 <= half_height <= MAX_HALF_EXTENT,
        in_bounds(candidate, half_width as int, half_height as int),
    ensures
        in_bounds(r, half_width as int, half_height as int),
        r != avoid,
        candidate != avoid ==> r == candidate,
{
    if candidate.x == avoid.x && candidate.y == avoid.y {
        let nx: i64 = if candidate.x < half_width {
            candidate.x + 1
        } else {
            candidate.x - 1
        };
        Pos { x: nx, y: candidate.y }
    } else {
        candidate
    }
}

/// Draws a fruit cell with both coordinates uniform over the grid, then
/// steers it off `avoid`.  The draw is not repeated: a colliding draw is
/// moved one column sideways instead.  Only the head's cell is avoided; a
/// fruit may land on a body segment's cell.
fn place_fruit(rng: &mut rand::rngs::SmallRng, avoid: Pos, half_width: i64, half_height: i64) -> (r: Pos)
    requires
        1 <= half_width <= MAX_HALF_EXTENT,
        1 <= half_height <= MAX_HALF_EXTENT,
    ensures
        in_bounds(r, half_width as int, half_height as int),
        r != avoid,
{
    let x: i64 = rng_range(rng, -half_width, half_width);
    let y: i64 = rng_range(rng, -half_height, half_height);
    adjust_fruit(Pos { x, y }, avoid, half_width, half_height)
}

} // verus!

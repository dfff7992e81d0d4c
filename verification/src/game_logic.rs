//! The snake simulation: grid positions, the snake body, food placement,
//! movement and collision detection.

use vstd::prelude::*;
use rand::Rng;

verus! {

/// A 2D integer grid coordinate, used both for cell positions and for
/// unit direction vectors. Compared by field equality.
#[derive(Debug, Clone, Copy, PartialEq, Eq, Structural)]
pub struct Vector {
    pub x: i16,
    pub y: i16,
}

impl Vector {
    pub fn new(x: i16, y: i16) -> (v: Vector)
        ensures
            v.x == x,
            v.y == y,
    {
        Vector { x, y }
    }
}

/// The direction values the simulation uses: the four axis-aligned unit
/// vectors, or `(0, 0)` for "not yet moving".
pub open spec fn is_unit_dir(d: Vector) -> bool {
    ||| (d.x == -1 && d.y == 0)
    ||| (d.x == 1 && d.y == 0)
    ||| (d.x == 0 && d.y == -1)
    ||| (d.x == 0 && d.y == 1)
    ||| (d.x == 0 && d.y == 0)
}

/// A requested direction is refused exactly when it is the exact reverse of
/// the current one (a 180-degree turn), which would step the head straight
/// back onto the neck.
pub open spec fn reverses(current: Vector, requested: Vector) -> bool {
    &&& requested.x == -current.x
    &&& requested.y == -current.y
    &&& !(requested.x == 0 && requested.y == 0)
}

/// The direction requested by the held keys, by priority: up, left, down,
/// right, first held key wins; with no key held the current direction stands.
pub open spec fn requested_dir(
    current: Vector,
    up: bool,
    left: bool,
    down: bool,
    right: bool,
) -> Vector {
    if up {
        Vector { x: 0, y: -1i16 }
    } else if left {
        Vector { x: -1i16, y: 0 }
    } else if down {
        Vector { x: 0, y: 1 }
    } else if right {
        Vector { x: 1, y: 0 }
    } else {
        current
    }
}

/// The direction after one round of input handling: the requested direction,
/// unless it reverses the current one, which leaves the direction unchanged.
pub open spec fn dir_after_input(
    current: Vector,
    up: bool,
    left: bool,
    down: bool,
    right: bool,
) -> Vector {
    let req = requested_dir(current, up, left, down, right);
    if reverses(current, req) {
        current
    } else {
        req
    }
}

/// Whether a snake body collides, against the given board bounds: the head
/// (index 0) lies outside `[0, width) x [0, height)`, or some later segment
/// occupies the head's cell.
pub open spec fn body_collides(body: Seq<Vector>, width: i16, height: i16) -> bool {
    ||| !(0 <= body[0].x < width && 0 <= body[0].y < height)
    ||| exists|i: int| 1 <= i < body.len() && #[trigger] body[i] == body[0]
}

/// One running snake simulation: board bounds, the body (index 0 is the
/// head), the food cell, the travel direction and the score.
pub struct Game {
    pub direction: Vector,
    pub food: Vector,
    pub snake: Vec<Vector>,
    pub width: i16,
    pub height: i16,
    pub score: i16,
}

impl Game {
    /// The head is always the first body segment.
    pub open spec fn head(self) -> Vector {
        self.snake@[0]
    }

    pub open spec fn in_bounds(self, p: Vector) -> bool {
        0 <= p.x < self.width && 0 <= p.y < self.height
    }

    /// Well-formedness: the body is never empty, the board has positive
    /// bounds, the direction is a unit vector (or zero), the food lies on
    /// the board, and the score is non-negative.
    pub open spec fn wf(self) -> bool {
        &&& self.snake@.len() >= 1
        &&& 0 < self.width
        &&& 0 < self.height
        &&& is_unit_dir(self.direction)
        &&& self.in_bounds(self.food)
        &&& 0 <= self.score
    }

    /// A direction of `(0, 0)` means the snake has not started moving.
    pub open spec fn moving(self) -> bool {
        !(self.direction.x == 0 && self.direction.y == 0)
    }

    /// The cell the head steps onto: the current head shifted by the
    /// direction.
    pub open spec fn next_head(self) -> Vector {
        Vector {
            x: (self.head().x + self.direction.x) as i16,
            y: (self.head().y + self.direction.y) as i16,
        }
    }

    /// One step eats exactly when the stepped-onto cell holds the food.
    pub open spec fn eats(self) -> bool {
        self.moving() && self.next_head() == self.food
    }

    /// The body after one step: unchanged when not moving; grown by the new
    /// head when eating; otherwise shifted, the new head prepended and the
    /// tail dropped.
    pub open spec fn stepped_body(self) -> Seq<Vector> {
        if !self.moving() {
            self.snake@
        } else if self.eats() {
            seq![self.next_head()] + self.snake@
        } else {
            seq![self.next_head()] + self.snake@.drop_last()
        }
    }

    /// The score after one step: raised by one exactly when the step eats.
    pub open spec fn stepped_score(self) -> int {
        if self.eats() {
            self.score + 1
        } else {
            self.score as int
        }
    }

    /// How a state after one `move_snake` relates to the state before it.
    /// Everything is pinned except the food after an eating step, which is
    /// drawn at random and only known to lie on the board.
    pub open spec fn steps_to(self, post: Game) -> bool {
        &&& post.width == self.width
        &&& post.height == self.height
        &&& post.direction == self.direction
        &&& post.snake@ == self.stepped_body()
        &&& post.score == self.stepped_score()
        &&& if self.eats() {
            post.in_bounds(post.food)
        } else {
            post.food == self.food
        }
    }

    pub open spec fn collides(self) -> bool {
        body_collides(self.snake@, self.width, self.height)
    }

    /// Whether the state reached by one step from `self` collides.
    pub open spec fn step_collides(self) -> bool {
        body_collides(self.stepped_body(), self.width, self.height)
    }

    /// The state after one round of input handling: only the direction can
    /// change, by key priority and the reverse-direction guard.
    pub open spec fn after_input(self, up: bool, left: bool, down: bool, right: bool) -> Game {
        Game { direction: dir_after_input(self.direction, up, left, down, right), ..self }
    }

    /// A fresh simulation: a single-segment body at the fixed start cell
    /// `(20, 15)`, moving right, score zero, and one food cell drawn at
    /// random on the board. The start cell is the caller's responsibility:
    /// on a board smaller than it, the initial state already collides.
    pub fn new(width: i16, height: i16) -> (g: Game)
        requires
            0 < width,
            0 < height,
        ensures
            g.width == width,
            g.height == height,
            g.direction == (Vector { x: 1, y: 0 }),
            g.snake@ == seq![Vector { x: 20, y: 15 }],
            g.score == 0,
            g.in_bounds(g.food),
            g.wf(),
    {
        let mut snake: Vec<Vector> = Vec::new();
        snake.push(Vector::new(20, 15));

        let mut game = Game {
            direction: Vector::new(1, 0),
            snake,
            food: Vector::new(0, 0),
            width,
            height,
            score: 0,
        };

        game.fresh_food();
        proof {
            assert(game.snake@ =~= seq![Vector { x: 20, y: 15 }]);
        }
        game
    }

    /// Advances the simulation by one tick. Does nothing while the direction
    /// is `(0, 0)`. Otherwise the head advances by the direction; eating the
    /// food grows the body and redraws the food, any other move shifts the
    /// body. The head always lands on the direction-adjusted previous head.
    pub fn move_snake(&mut self)
        requires
            old(self).wf(),
            old(self).score < 0x7fff,
            -0x8000 <= old(self).head().x + old(self).direction.x <= 0x7fff,
            -0x8000 <= old(self).head().y + old(self).direction.y <= 0x7fff,
        ensures
            old(self).steps_to(*final(self)),
            final(self).wf(),
            old(self).moving() ==> final(self).snake@[0] == old(self).next_head(),
    {
        if self.direction.x == 0 && self.direction.y == 0 {
            return;
        }

        let mut head = self.snake[0];
        head.x = head.x + self.direction.x;
        head.y = head.y + self.direction.y;

        if head.x == self.food.x && head.y == self.food.y {
            self.score = self.score + 1;
            self.snake.insert(0, head);
            self.fresh_food();
            proof {
                assert(self.snake@ =~= seq![head] + old(self).snake@);
            }
        } else {
            self.snake.pop();
            self.snake.insert(0, head);
            proof {
                assert(self.snake@ =~= seq![head] + old(self).snake@.drop_last());
            }
        }
    }

    /// Draws a fresh food cell, both coordinates uniform over the board.
    /// Nothing keeps it off the snake's body: food may land on a segment,
    /// as the simulation has always behaved.
    pub fn fresh_food(&mut self)
        requires
            0 < old(self).width,
            0 < old(self).height,
        ensures
            final(self).width == old(self).width,
            final(self).height == old(self).height,
            final(self).direction == old(self).direction,
            final(self).snake@ == old(self).snake@,
            final(self).score == old(self).score,
            final(self).in_bounds(final(self).food),
    {
        let fx = random_below(self.width);
        let fy = random_below(self.height);
        self.food = Vector::new(fx, fy);
    }

    /// Reports whether the snake has hit a wall (head outside the board) or
    /// itself (head cell shared with a later segment). Pure query.
    pub fn collision_detection(&self) -> (r: bool)
        requires
            self.snake@.len() >= 1,
        ensures
            r == self.collides(),
    {
        let head = self.snake[0];

        if head.x < 0 || head.x >= self.width || head.y < 0 || head.y >= self.height {
            return true;
        }

        let mut i: usize = 1;
        while i < self.snake.len()
            invariant
                1 <= i <= self.snake@.len(),
                head == self.snake@[0],
                0 <= head.x < self.width && 0 <= head.y < self.height,
                forall|j: int| 1 <= j < i ==> #[trigger] self.snake@[j] != self.snake@[0],
            decreases self.snake@.len() - i,
        {
            let seg = self.snake[i];
            if seg.x == head.x && seg.y == head.y {
                return true;
            }
            i = i + 1;
        }

        false
    }

    /// Sets the travel direction to `requested`, unless that reverses the
    /// current direction, which leaves it unchanged. The change takes effect
    /// on the next step.
    pub fn set_direction(&mut self, requested: Vector)
        requires
            is_unit_dir(requested),
            is_unit_dir(old(self).direction),
        ensures
            final(self).direction == (if reverses(old(self).direction, requested) {
                old(self).direction
            } else {
                requested
            }),
            final(self).snake@ == old(self).snake@,
            final(self).food == old(self).food,
            final(self).score == old(self).score,
            final(self).width == old(self).width,
            final(self).height == old(self).height,
            old(self).wf() ==> final(self).wf(),
    {
        let dx = self.direction.x;
        let dy = self.direction.y;
        let blocked = requested.x == -dx && requested.y == -dy && !(requested.x == 0
            && requested.y == 0);
        if !blocked {
            self.direction = requested;
        }
    }

    /// Applies one round of held directional keys: by priority up, left,
    /// down, right, the first held key requests its direction, subject to
    /// the reverse-direction guard; with no key held nothing changes.
    pub fn input(&mut self, up: bool, left: bool, down: bool, right: bool)
        requires
            is_unit_dir(old(self).direction),
        ensures
            final(self).direction == dir_after_input(old(self).direction, up, left, down, right),
            final(self).snake@ == old(self).snake@,
            final(self).food == old(self).food,
            final(self).score == old(self).score,
            final(self).width == old(self).width,
            final(self).height == old(self).height,
            old(self).wf() ==> final(self).wf(),
    {
        if up {
            self.set_direction(Vector::new(0, -1));
        } else if left {
            self.set_direction(Vector::new(-1, 0));
        } else if down {
            self.set_direction(Vector::new(0, 1));
        } else if right {
            self.set_direction(Vector::new(1, 0));
        }
    }
}

/// Relies on rand 0.8: `Rng::gen_range(0..bound)` on the thread-local
/// generator panics on an empty range and otherwise returns a uniform draw
/// from `[0, bound)`. The draw is random: nothing relates two calls.
#[verifier::external_body]
fn random_below(bound: i16) -> (r: i16)
    requires
        0 < bound,
    ensures
        0 <= r < bound,
{
    rand::thread_rng().gen_range(0..bound)
}

} // verus!

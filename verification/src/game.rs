//! The snake game itself: its state and the per-tick rules.
//!
//! The body is a list of segments from oldest to newest; the last element
//! is the head. Each tick of the fixed-rate schedule removes the oldest
//! segment (unless the ball is being eaten, which is how the snake grows),
//! settles the ball, places a new head at the current coordinates, and
//! advances the coordinates one cell. The variable-rate schedule steers
//! the direction from key presses and checks the head against the body.

use vstd::prelude::*;
use crate::board::cell_free;
use crate::board::empty_coordinates;
use crate::board::has_free_cell;
use crate::geometry::Coordinates;
use crate::geometry::Direction;
use crate::geometry::HEIGHT;
use crate::geometry::Key;
use crate::geometry::WIDTH;
use crate::geometry::check_dir_valid;
use crate::geometry::check_in_grid;
use crate::geometry::dir_valid;
use crate::geometry::in_grid;
use crate::geometry::movement;
use crate::geometry::steered;
use crate::geometry::update_coordinates;
use crate::geometry::wrap;
use crate::random::random_below;

verus! {

/// The head has run into an earlier body segment.
pub open spec fn self_collision(body: Seq<Coordinates>) -> bool {
    body.len() >= 1 && exists|i: int| 0 <= i < body.len() - 1 && #[trigger] body[i] == body[
        body.len() - 1
    ]
}

/// The whole state of one game.
pub struct GameState {
    /// Body segments from oldest to newest; the last one is the head.
    pub body: Vec<Coordinates>,
    /// Where the next head will appear.
    pub coordinates: Coordinates,
    /// Current movement direction.
    pub direction: Direction,
    /// Where the ball lies.
    pub ball: Coordinates,
    /// How many balls have been eaten.
    pub score: usize,
    /// Set once the snake has run into itself; the game then halts.
    pub game_over: bool,
}

impl GameState {
    /// Everything lies on the playfield and the direction is sound.
    pub open spec fn wf(self) -> bool {
        &&& in_grid(self.coordinates)
        &&& in_grid(self.ball)
        &&& dir_valid(self.direction)
        &&& forall|i: int| 0 <= i < self.body@.len() ==> in_grid(#[trigger] self.body@[i])
    }

    /// The opening position: a single body segment and the coordinates at
    /// cell (1, 1), the ball at cell (3, 3), no movement yet.
    pub fn new() -> (s: GameState)
        ensures
            s.body@.len() == 1,
            s.body@[0] == (Coordinates { x: 1, y: 1 }),
            s.coordinates == (Coordinates { x: 1, y: 1 }),
            s.direction == (Direction { x: 0, y: 0 }),
            s.ball == (Coordinates { x: 3, y: 3 }),
            s.score == 0,
            !s.game_over,
            s.wf(),
    {
        let mut body: Vec<Coordinates> = Vec::new();
        body.push(Coordinates { x: 1, y: 1 });
        GameState {
            body,
            coordinates: Coordinates { x: 1, y: 1 },
            direction: Direction { x: 0, y: 0 },
            ball: Coordinates { x: 3, y: 3 },
            score: 0,
            game_over: false,
        }
    }

    /// Runtime check of `wf`, for callers outside the verified world.
    pub fn is_wf(&self) -> (b: bool)
        ensures
            b == self.wf(),
    {
        let coords_ok = check_in_grid(&self.coordinates);
        let ball_ok = check_in_grid(&self.ball);
        let dir_ok = check_dir_valid(&self.direction);
        let mut body_ok = true;
        let mut i: usize = 0;
        while i < self.body.len()
            invariant
                0 <= i <= self.body@.len(),
                body_ok == forall|j: int| 0 <= j < i ==> in_grid(#[trigger] self.body@[j]),
            decreases self.body@.len() - i,
        {
            if !check_in_grid(&self.body[i]) {
                body_ok = false;
            }
            i = i + 1;
        }
        coords_ok && ball_ok && dir_ok && body_ok
    }

    /// Steer the direction from one key press.
    pub fn movement(&mut self, key: Key)
        ensures
            final(self).direction == steered(old(self).direction, key),
            final(self).body@ == old(self).body@,
            final(self).coordinates == old(self).coordinates,
            final(self).ball == old(self).ball,
            final(self).score == old(self).score,
            final(self).game_over == old(self).game_over,
    {
        movement(&mut self.direction, key);
    }

    /// Remove the oldest body segment, except when the game is over or the
    /// snake is on the ball — then the body keeps every segment, which is
    /// how eating makes it grow.
    pub fn despawn_tail(&mut self)
        ensures
            final(self).coordinates == old(self).coordinates,
            final(self).direction == old(self).direction,
            final(self).ball == old(self).ball,
            final(self).score == old(self).score,
            final(self).game_over == old(self).game_over,
            (old(self).game_over || old(self).coordinates == old(self).ball || old(self).body@.len() == 0) ==> final(self).body@ == old(self).body@,
            (!old(self).game_over && old(self).coordinates != old(self).ball && old(self).body@.len() > 0) ==> final(self).body@ == old(self).body@.drop_first(),
    {
        if self.game_over {
            return ;
        }
        if self.ball == self.coordinates {
            return ;
        }
        if self.body.len() > 0 {
            self.body.remove(0);
            proof {
                assert(self.body@ =~= old(self).body@.drop_first());
            }
        }
    }

    /// Append a new head segment at the current coordinates, except when
    /// the game is over.
    pub fn spawn_head(&mut self)
        ensures
            final(self).coordinates == old(self).coordinates,
            final(self).direction == old(self).direction,
            final(self).ball == old(self).ball,
            final(self).score == old(self).score,
            final(self).game_over == old(self).game_over,
            old(self).game_over ==> final(self).body@ == old(self).body@,
            !old(self).game_over ==> final(self).body@ == old(self).body@.push(
                old(self).coordinates,
            ),
    {
        if self.game_over {
            return ;
        }
        self.body.push(self.coordinates);
    }

    /// When the coordinates have reached the ball, count the point and move
    /// the ball to a cell the body leaves free, drawn at random; if the
    /// body covers the whole playfield the ball stays where it is.
    pub fn ball_eaten(&mut self)
        requires
            old(self).score < usize::MAX,
        ensures
            final(self).coordinates == old(self).coordinates,
            final(self).direction == old(self).direction,
            final(self).game_over == old(self).game_over,
            final(self).body@ == old(self).body@,
            old(self).coordinates != old(self).ball ==> final(self).ball == old(self).ball
                && final(self).score == old(self).score,
            old(self).coordinates == old(self).ball ==> final(self).score == old(self).score + 1,
            old(self).coordinates == old(self).ball && has_free_cell(old(self).body@) ==> cell_free(
                old(self).body@,
                final(self).ball,
            ),
            old(self).coordinates == old(self).ball && !has_free_cell(old(self).body@) ==> final(self).ball == old(self).ball,
    {
        if self.ball == self.coordinates {
            let empties = empty_coordinates(&self.body);
            if empties.len() > 0 {
                let n = random_below(empties.len());
                self.ball = empties[n];
            } else {
                proof {
                    if has_free_cell(self.body@) {
                        let c = choose|c: Coordinates| cell_free(self.body@, c);
                        assert(empties@.contains(c));
                    }
                }
            }
            self.score = self.score + 1;
        }
    }

    /// Set the game over once the head shares a cell with an earlier body
    /// segment; once set it stays.
    pub fn check_collision(&mut self)
        ensures
            final(self).coordinates == old(self).coordinates,
            final(self).direction == old(self).direction,
            final(self).ball == old(self).ball,
            final(self).score == old(self).score,
            final(self).body@ == old(self).body@,
            final(self).game_over == (old(self).game_over || self_collision(old(self).body@)),
    {
        let collided = body_hits_head(&self.body);
        if collided {
            self.game_over = true;
        }
    }

    /// One step of the fixed-rate schedule, in the order the systems run:
    /// tail removal, eating, head placement, coordinate advance. A finished
    /// game does not change.
    pub fn fixed_update(&mut self)
        requires
            old(self).wf(),
            old(self).score < usize::MAX,
        ensures
            final(self).wf(),
            final(self).direction == old(self).direction,
            final(self).game_over == old(self).game_over,
            old(self).game_over ==> final(self).body@ == old(self).body@ && final(self).coordinates
                == old(self).coordinates && final(self).ball == old(self).ball && final(self).score
                == old(self).score,
            !old(self).game_over ==> final(self).coordinates.x == wrap(
                old(self).coordinates.x + old(self).direction.x,
                WIDTH as int,
            ) && final(self).coordinates.y == wrap(
                old(self).coordinates.y + old(self).direction.y,
                HEIGHT as int,
            ),
            !old(self).game_over && old(self).coordinates == old(self).ball ==> final(self).body@
                == old(self).body@.push(old(self).coordinates) && final(self).score == old(self).score + 1,
            !old(self).game_over && old(self).coordinates == old(self).ball && has_free_cell(
                old(self).body@,
            ) ==> cell_free(old(self).body@, final(self).ball),
            !old(self).game_over && old(self).coordinates == old(self).ball && !has_free_cell(
                old(self).body@,
            ) ==> final(self).ball == old(self).ball,
            !old(self).game_over && old(self).coordinates != old(self).ball ==> final(self).ball
                == old(self).ball && final(self).score == old(self).score,
            !old(self).game_over && old(self).coordinates != old(self).ball && old(self).body@.len() > 0 ==> final(self).body@ == old(self).body@.drop_first().push(
                old(self).coordinates,
            ),
            !old(self).game_over && old(self).coordinates != old(self).ball && old(self).body@.len() == 0 ==> final(self).body@ == old(self).body@.push(
                old(self).coordinates,
            ),
    {
        if self.game_over {
            return ;
        }
        self.despawn_tail();
        self.ball_eaten();
        self.spawn_head();
        update_coordinates(&mut self.coordinates, &self.direction);
        proof {
            assert forall|i: int| 0 <= i < self.body@.len() implies in_grid(
                #[trigger] self.body@[i],
            ) by {
                if old(self).coordinates != old(self).ball && old(self).body@.len() > 0 {
                    if i < self.body@.len() - 1 {
                        assert(self.body@[i] == old(self).body@[i + 1]);
                    }
                } else {
                    if i < self.body@.len() - 1 {
                        assert(self.body@[i] == old(self).body@[i]);
                    }
                }
            }
        }
    }
}

/// Whether the last body segment, the head, shares a cell with an earlier
/// one.
pub fn body_hits_head(body: &Vec<Coordinates>) -> (r: bool)
    ensures
        r == self_collision(body@),
{
    if body.len() == 0 {
        return false;
    }
    let head = body[body.len() - 1];
    let mut i: usize = 0;
    let mut hit = false;
    while i < body.len() - 1
        invariant
            body@.len() >= 1,
            0 <= i <= body@.len() - 1,
            head == body@[body@.len() - 1],
            hit == exists|j: int| 0 <= j < i && #[trigger] body@[j] == body@[body@.len() - 1],
        decreases body@.len() - 1 - i,
    {
        if body[i] == head {
            hit = true;
        }
        i = i + 1;
    }
    hit
}

} // verus!

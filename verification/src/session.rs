use vstd::prelude::*;
use crate::apple::spawn_apple_in_area;
use crate::apple::Apple;
use crate::base_types::GridUnit;
use crate::base_types::GridVector;
use crate::constants::play_area;
use crate::constants::spec_initial_velocity;
use crate::constants::spec_play_area;
use crate::constants::INITIAL_SIZE;
use crate::constants::INITIAL_SPEED;
use crate::constants::GAME_OVER_TIMEOUT;
use crate::constants::GROW_PER_APPLE;
use crate::constants::SPEED_INCREASE_FRACTION;
use crate::snake::applied_velocity;
use crate::snake::consume_input;
use crate::snake::due;
use crate::snake::lemma_tick_wf;
use crate::snake::spec_eats;
use crate::snake::spec_new_head;
use crate::snake::spec_tick;
use crate::snake::stone_hit;
use crate::snake::Direction;
use crate::snake::Snake;
use crate::stone::level_corners;
use crate::stone::spec_layout;
use crate::stone::Stone;
use crate::utils::wrap_in_grid;

verus! {

/// Where a session stands in the snake's lifecycle.
#[derive(Debug, PartialEq, Eq, Structural, Copy, Clone)]
pub enum GameStatus {
    /// Standing still, waiting for a first heading.
    Idle,
    /// Alive and moving.
    Moving,
    /// A fatal collision was detected; the corpse is still shown.
    Dying,
    /// The terminal state after the game-over timeout.
    GameOver,
}

/// One game: the snake, the apple, the stones framing the play area, and
/// whether the session has reached its terminal state.
pub struct Session {
    pub snake: Snake,
    pub apple: Apple,
    pub stones: Vec<Stone>,
    pub game_over: bool,
}

/// Whether some stone of `stones` occupies `p`.
pub fn stones_contain(stones: &Vec<Stone>, p: GridVector) -> (b: bool)
    ensures
        b == stone_hit(stones@, p),
{
    let mut i: usize = 0;
    while i < stones.len()
        invariant
            0 <= i <= stones@.len(),
            forall|j: int| 0 <= j < i ==> stones@[j].pos != p,
        decreases stones@.len() - i,
    {
        if stones[i].pos == p {
            return true;
        }
        i = i + 1;
    }
    false
}

impl Session {
    /// Every session the library hands out satisfies this: a well-formed
    /// snake, the apple inside the play area, and the fixed obstacle
    /// layout of the play area.
    pub open spec fn wf(self) -> bool {
        &&& self.snake@.wf()
        &&& spec_play_area().contains(self.apple.position)
        &&& self.stones@ == spec_layout(spec_play_area())
        &&& (self.game_over ==> self.snake@.lost_at is Some)
    }

    /// What a session looks like right after construction or reset.
    pub open spec fn fresh(self, now: u64) -> bool {
        &&& self.snake@.tail.len() == 1
        &&& spec_play_area().contains(self.snake@.tail[0])
        &&& self.snake@.velocity == spec_initial_velocity()
        &&& self.snake@.speed == INITIAL_SPEED
        &&& self.snake@.last_round == now
        &&& self.snake@.lost_at is None
        &&& self.snake@.score == 0
        &&& self.snake@.grow == INITIAL_SIZE - 1
        &&& spec_play_area().contains(self.apple.position)
        &&& self.apple.position != self.snake@.tail[0]
        &&& self.apple.spawned_at == now
        &&& self.stones@ == spec_layout(spec_play_area())
        &&& !self.game_over
    }

    /// A fresh game at time `now`.
    pub fn new(now: u64) -> (s: Session)
        ensures
            s.wf(),
            s.fresh(now),
    {
        let snake = Snake::new(now);
        proof {
            lemma_free_cell_beside(snake@.tail[0]);
            let w = choose|p: GridVector| spec_play_area().contains(p) && p != snake@.tail[0];
            assert(!snake.tail@.contains(w));
        }
        let area = play_area();
        let apple = spawn_apple_in_area(&area, snake.tail.as_slice(), now);
        let stones = level_corners();
        Session { snake, apple, stones, game_over: false }
    }

    /// Discards the current game and starts a fresh one at time `now`,
    /// keeping only the configuration.
    pub fn reset(&mut self, now: u64)
        ensures
            final(self).wf(),
            final(self).fresh(now),
    {
        *self = Session::new(now);
    }

    /// Where the session stands in the snake's lifecycle.
    pub fn status(&self) -> (st: GameStatus)
        ensures
            st == spec_status(*self),
    {
        if self.game_over {
            GameStatus::GameOver
        } else if self.snake.lost_at.is_some() {
            GameStatus::Dying
        } else if self.snake.velocity.x == 0 && self.snake.velocity.y == 0 {
            GameStatus::Idle
        } else {
            GameStatus::Moving
        }
    }

    /// Microseconds since the fatal collision, if one has happened; zero
    /// while `now` still lies before it.
    pub fn elapsed_since_death(&self, now: u64) -> (e: Option<u64>)
        ensures
            e is Some <==> self.snake@.lost_at is Some,
            match self.snake.lost_at {
                Option::Some(t) => e == Option::Some(if now > t {
                    (now - t) as u64
                } else {
                    0u64
                }),
                Option::None => e is None,
            },
    {
        match self.snake.lost_at {
            Option::Some(t) => if now > t {
                Option::Some(now - t)
            } else {
                Option::Some(0)
            },
            Option::None => Option::None,
        }
    }

    /// Advances the simulation per one driving-loop iteration.  A no-op
    /// until the snake's tick interval has elapsed; a dying snake only
    /// waits out the game-over timeout; everything else is one gameplay
    /// tick as `spec_tick` lays it down, with a fresh apple drawn at
    /// random whenever the old one is eaten.
    pub fn step(&mut self, now: u64, input: Option<Direction>)
        requires
            old(self).wf(),
            old(self).snake.score < u32::MAX,
            old(self).snake.grow + GROW_PER_APPLE <= i16::MAX,
            spec_eats(old(self).snake@, old(self).apple.position, input) ==> exists|p: GridVector|
                spec_play_area().contains(p) && !old(self).snake@.tail.contains(p),
        ensures
            final(self).wf(),
            step_ok(*old(self), *final(self), now, input),
    {
        if self.game_over {
            return ;
        }
        if let Option::Some(t) = self.snake.lost_at {
            self.game_over = now > t && now - t > GAME_OVER_TIMEOUT;
            return ;
        }
        if !(now > self.snake.last_round && now - self.snake.last_round > self.snake.speed) {
            return ;
        }

        let ghost m0 = self.snake@;
        let ghost stones0 = self.stones@;
        let ghost apple0 = self.apple;

        self.snake.velocity = consume_input(self.snake.velocity, input);
        let v = self.snake.velocity;
        if v.x == 0 && v.y == 0 {
            self.snake.last_round = now;
            proof {
                assert(self.snake@ == spec_tick(m0, stones0, apple0.position, input, now));
                lemma_tick_wf(m0, stones0, apple0.position, input, now);
            }
            return ;
        }

        let len = self.snake.tail.len();
        let last_head = self.snake.tail[len - 1];
        let new_head = wrap_in_grid(last_head.add(v));
        proof {
            assert(new_head == spec_new_head(m0, v));
        }

        let hit_tail = crate::apple::conflicts_with(self.snake.tail.as_slice(), new_head);
        let hit_stone = stones_contain(&self.stones, new_head);
        if hit_tail || hit_stone {
            self.snake.lost_at = Option::Some(now);
        }

        if new_head == self.apple.position {
            proof {
                assert(spec_eats(m0, apple0.position, input));
            }
            let area = play_area();
            self.apple = spawn_apple_in_area(&area, self.snake.tail.as_slice(), now);
            self.snake.speed = self.snake.speed - self.snake.speed / SPEED_INCREASE_FRACTION;
            self.snake.score = self.snake.score + 1;
            self.snake.grow = self.snake.grow + GROW_PER_APPLE;
        }

        if self.snake.lost_at.is_none() {
            if self.snake.grow > 0 {
                self.snake.grow = self.snake.grow - 1;
            } else {
                self.snake.tail.remove(0);
                proof {
                    assert(self.snake.tail@ =~= m0.tail.drop_first());
                }
            }
        }
        self.snake.tail.push(new_head);
        self.snake.last_round = now;

        proof {
            assert(self.snake@.tail =~= spec_tick(m0, stones0, apple0.position, input, now).tail);
            assert(self.snake@ == spec_tick(m0, stones0, apple0.position, input, now));
            lemma_tick_wf(m0, stones0, apple0.position, input, now);
        }
    }
}

/// Where the session stands, read off its fields.
pub open spec fn spec_status(s: Session) -> GameStatus {
    if s.game_over {
        GameStatus::GameOver
    } else if s.snake@.lost_at is Some {
        GameStatus::Dying
    } else if s.snake@.velocity == (GridVector { x: 0 as GridUnit, y: 0 as GridUnit }) {
        GameStatus::Idle
    } else {
        GameStatus::Moving
    }
}

/// Everything one `step` call does, as a relation between the session
/// before and after it.  Terminal sessions and not-yet-due calls change
/// nothing; a dying snake only has the game-over timeout checked; a live,
/// due tick leaves the snake exactly as `spec_tick` says, and replaces
/// the apple by a fresh one off the pre-move body whenever the head
/// landed on it.
pub open spec fn step_ok(pre: Session, post: Session, now: u64, input: Option<Direction>) -> bool {
    if pre.game_over {
        post == pre
    } else {
        match pre.snake.lost_at {
            Option::Some(t) => {
                &&& post.snake == pre.snake
                &&& post.apple == pre.apple
                &&& post.stones == pre.stones
                &&& post.game_over == (now > t + GAME_OVER_TIMEOUT)
            },
            Option::None => {
                if !due(pre.snake@, now) {
                    post == pre
                } else {
                    &&& !post.game_over
                    &&& post.stones == pre.stones
                    &&& post.snake@ == spec_tick(
                        pre.snake@,
                        pre.stones@,
                        pre.apple.position,
                        input,
                        now,
                    )
                    &&& if spec_eats(pre.snake@, pre.apple.position, input) {
                        &&& spec_play_area().contains(post.apple.position)
                        &&& !pre.snake@.tail.contains(post.apple.position)
                        &&& post.apple.spawned_at == now
                    } else {
                        post.apple == pre.apple
                    }
                }
            },
        }
    }
}

/// A snake standing still with no steering request never moves: however
/// much wall-clock time has passed, a step leaves every body cell where
/// it was and the heading at rest, so repeated steps do the same.
pub proof fn lemma_idle_snake_stays(pre: Session, post: Session, now: u64)
    requires
        step_ok(pre, post, now, Option::None),
        pre.snake@.velocity == (GridVector { x: 0 as GridUnit, y: 0 as GridUnit }),
    ensures
        post.snake@.tail == pre.snake@.tail,
        post.snake@.velocity == pre.snake@.velocity,
{
}

/// A request pointing straight back against the current heading is
/// ignored: the heading is unchanged after the next step.
pub proof fn lemma_reverse_input_ignored(pre: Session, post: Session, now: u64, d: Direction)
    requires
        step_ok(pre, post, now, Option::Some(d)),
        crate::snake::is_reverse(pre.snake@.velocity, d),
    ensures
        post.snake@.velocity == pre.snake@.velocity,
{
}

/// Eating an apple scores exactly one point, pays out the configured
/// growth credit (one unit of which the same tick consumes instead of
/// dropping the tail end), and the body gets longer, never shorter, on
/// the triggering tick.
pub proof fn lemma_eating_apple(
    pre: Session,
    post: Session,
    now: u64,
    input: Option<Direction>,
)
    requires
        step_ok(pre, post, now, input),
        pre.wf(),
        !pre.game_over,
        pre.snake@.lost_at is None,
        due(pre.snake@, now),
        spec_eats(pre.snake@, pre.apple.position, input),
    ensures
        post.snake@.score == pre.snake@.score + 1,
        post.snake@.tail.len() == pre.snake@.tail.len() + 1,
        post.snake@.lost_at is None ==> post.snake@.grow == pre.snake@.grow + GROW_PER_APPLE - 1,
        post.snake@.lost_at is Some ==> post.snake@.grow == pre.snake@.grow + GROW_PER_APPLE,
{
}

/// Advancing onto any pre-move body cell is fatal: the tick stamps the
/// time of death.
pub proof fn lemma_self_collision(
    pre: Session,
    post: Session,
    now: u64,
    input: Option<Direction>,
)
    requires
        step_ok(pre, post, now, input),
        !pre.game_over,
        pre.snake@.lost_at is None,
        due(pre.snake@, now),
        applied_velocity(pre.snake@.velocity, input) != (GridVector {
            x: 0 as GridUnit,
            y: 0 as GridUnit,
        }),
        pre.snake@.tail.contains(
            spec_new_head(pre.snake@, applied_velocity(pre.snake@.velocity, input)),
        ),
    ensures
        post.snake@.lost_at == Option::Some(now as int),
{
}

/// From the fatal tick on the snake no longer moves: a step leaves it
/// untouched, and only watches the game-over timeout, after which the
/// session is terminal.
pub proof fn lemma_dying_snake_rests(
    pre: Session,
    post: Session,
    now: u64,
    t: u64,
    input: Option<Direction>,
)
    requires
        step_ok(pre, post, now, input),
        !pre.game_over,
        pre.snake.lost_at == Option::<u64>::Some(t),
    ensures
        post.snake == pre.snake,
        post.game_over == (now > t + GAME_OVER_TIMEOUT),
        now > t + GAME_OVER_TIMEOUT ==> spec_status(post) == GameStatus::GameOver,
        !(now > t + GAME_OVER_TIMEOUT) ==> spec_status(post) == GameStatus::Dying,
{
}

/// Beside any play-area cell there is another play-area cell: the play
/// area is more than one cell wide.
proof fn lemma_free_cell_beside(t: GridVector)
    requires
        spec_play_area().contains(t),
    ensures
        exists|p: GridVector|
            spec_play_area().contains(p) && p != t,
{
    let w = if t.x + 1 < spec_play_area().pos.x + spec_play_area().size.x {
        GridVector { x: (t.x + 1) as GridUnit, y: t.y }
    } else {
        GridVector { x: (t.x - 1) as GridUnit, y: t.y }
    };
    assert(spec_play_area().contains(w) && w != t);
}

} // verus!

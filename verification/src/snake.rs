use vstd::prelude::*;
use crate::base_types::GridUnit;
use crate::base_types::GridVector;
use crate::constants::spec_grid_area;
use crate::constants::spec_initial_velocity;
use crate::constants::spec_play_area;
use crate::constants::INITIAL_SIZE;
use crate::constants::INITIAL_SPEED;
use crate::constants::GROW_PER_APPLE;
use crate::constants::SPEED_INCREASE_FRACTION;
use crate::stone::Stone;
use crate::utils::random_pos;
use crate::utils::wrapped;

verus! {

/// A steering request, one of the four grid directions.  The y axis grows
/// downward.
#[derive(Debug, PartialEq, Eq, Structural, Copy, Clone)]
pub enum Direction {
    Up,
    Down,
    Left,
    Right,
}

/// The unit vector a direction moves by.
pub open spec fn spec_direction_vector(d: Direction) -> GridVector {
    match d {
        Direction::Up => GridVector { x: 0, y: (-1) as GridUnit },
        Direction::Down => GridVector { x: 0, y: 1 },
        Direction::Left => GridVector { x: (-1) as GridUnit, y: 0 },
        Direction::Right => GridVector { x: 1, y: 0 },
    }
}

/// The unit vector a direction moves by.
pub fn direction_vector(d: Direction) -> (v: GridVector)
    ensures
        v == spec_direction_vector(d),
{
    match d {
        Direction::Up => GridVector { x: 0, y: -1 },
        Direction::Down => GridVector { x: 0, y: 1 },
        Direction::Left => GridVector { x: -1, y: 0 },
        Direction::Right => GridVector { x: 1, y: 0 },
    }
}

/// A request pointing straight back against the current heading: it would
/// steer the snake into its own neck, and is dropped.
pub open spec fn is_reverse(v: GridVector, d: Direction) -> bool {
    match d {
        Direction::Up => v.y == 1,
        Direction::Down => v.y == -1,
        Direction::Left => v.x == 1,
        Direction::Right => v.x == -1,
    }
}

/// The heading after consuming at most one buffered request: a reverse
/// request is silently dropped, any other replaces the heading.
pub open spec fn applied_velocity(v: GridVector, input: Option<Direction>) -> GridVector {
    match input {
        Option::None => v,
        Option::Some(d) => if is_reverse(v, d) {
            v
        } else {
            spec_direction_vector(d)
        },
    }
}

/// The heading after consuming at most one buffered request.
pub fn consume_input(v: GridVector, input: Option<Direction>) -> (r: GridVector)
    ensures
        r == applied_velocity(v, input),
{
    match input {
        Option::None => v,
        Option::Some(d) => {
            let reverse = match d {
                Direction::Up => v.y == 1,
                Direction::Down => v.y == -1,
                Direction::Left => v.x == 1,
                Direction::Right => v.x == -1,
            };
            if reverse {
                v
            } else {
                direction_vector(d)
            }
        },
    }
}

/// The headings a snake can have: standing still, or one cell per tick
/// along an axis.
pub open spec fn valid_velocity(v: GridVector) -> bool {
    ||| v == GridVector { x: 0 as GridUnit, y: 0 as GridUnit }
    ||| v == GridVector { x: 1 as GridUnit, y: 0 as GridUnit }
    ||| v == GridVector { x: (-1) as GridUnit, y: 0 as GridUnit }
    ||| v == GridVector { x: 0 as GridUnit, y: 1 as GridUnit }
    ||| v == GridVector { x: 0 as GridUnit, y: (-1) as GridUnit }
}

/// The mathematical image of a snake: what the contracts speak of.
pub ghost struct SnakeModel {
    /// Body cells in order; the head is the last element.
    pub tail: Seq<GridVector>,
    pub velocity: GridVector,
    /// Microseconds that must elapse between ticks.
    pub speed: int,
    /// When the last tick was accepted, in microseconds.
    pub last_round: int,
    /// When a fatal collision was detected, if one was.
    pub lost_at: Option<int>,
    pub score: int,
    /// Segments still owed to the tail from recent apples.
    pub grow: int,
}

impl SnakeModel {
    /// The cell the snake's head occupies.
    pub open spec fn head(self) -> GridVector {
        self.tail.last()
    }

    /// Every snake the library hands out satisfies this: a non-empty body
    /// on the grid, a lawful heading, no growth debt below zero, and,
    /// while alive, no cell occupied twice.
    pub open spec fn wf(self) -> bool {
        &&& self.tail.len() >= 1
        &&& valid_velocity(self.velocity)
        &&& forall|i: int|
            0 <= i < self.tail.len() ==> spec_grid_area().contains(#[trigger] self.tail[i])
        &&& self.grow >= 0
        &&& self.speed >= 0
        &&& self.score >= 0
        &&& self.last_round >= 0
        &&& (self.lost_at is None ==> self.tail.no_duplicates())
    }
}

/// The cell one step from `p` along `v`, before wrapping.
pub open spec fn moved(p: GridVector, v: GridVector) -> GridVector {
    GridVector { x: (p.x + v.x) as GridUnit, y: (p.y + v.y) as GridUnit }
}

/// Where the head lands when the snake advances along `v`.
pub open spec fn spec_new_head(m: SnakeModel, v: GridVector) -> GridVector {
    wrapped(spec_grid_area(), moved(m.head(), v))
}

/// Whether some stone occupies `p`.
pub open spec fn stone_hit(stones: Seq<Stone>, p: GridVector) -> bool {
    exists|i: int| 0 <= i < stones.len() && stones[i].pos == p
}

/// Whether a tick taken now would land the head on the apple.
pub open spec fn spec_eats(m: SnakeModel, apple_pos: GridVector, input: Option<Direction>) -> bool {
    let v = applied_velocity(m.velocity, input);
    &&& v != (GridVector { x: 0 as GridUnit, y: 0 as GridUnit })
    &&& spec_new_head(m, v) == apple_pos
}

/// One gameplay tick of the snake alone, which is deterministic; only the
/// replacement apple, drawn at random, is described separately.  In order:
/// the buffered request is consumed; with a zero heading nothing moves;
/// otherwise the head advances one wrapped cell, a landing on any
/// pre-move body cell or stone is fatal, a landing on the apple scores,
/// speeds the snake up and credits growth, and the tail end is dropped
/// only when the snake stays alive and has no growth credit.  The moved
/// head is appended even on the fatal tick.
pub open spec fn spec_tick(
    m: SnakeModel,
    stones: Seq<Stone>,
    apple_pos: GridVector,
    input: Option<Direction>,
    now: u64,
) -> SnakeModel {
    let v = applied_velocity(m.velocity, input);
    if v == (GridVector { x: 0 as GridUnit, y: 0 as GridUnit }) {
        SnakeModel { velocity: v, last_round: now as int, ..m }
    } else {
        let h = spec_new_head(m, v);
        let collide = m.tail.contains(h) || stone_hit(stones, h);
        let ate = h == apple_pos;
        let grow1 = m.grow + if ate { GROW_PER_APPLE as int } else { 0int };
        let tail1 = if collide || grow1 > 0 { m.tail } else { m.tail.drop_first() };
        SnakeModel {
            tail: tail1.push(h),
            velocity: v,
            speed: if ate { m.speed - m.speed / (SPEED_INCREASE_FRACTION as int) } else { m.speed },
            last_round: now as int,
            lost_at: if collide { Option::Some(now as int) } else { Option::None },
            score: m.score + if ate { 1int } else { 0int },
            grow: if !collide && grow1 > 0 { grow1 - 1 } else { grow1 },
        }
    }
}

/// Whether enough wall-clock time has elapsed for the next tick.
pub open spec fn due(m: SnakeModel, now: u64) -> bool {
    now > m.last_round + m.speed
}

/// A tick of a live, well-formed snake leaves it well-formed: the body
/// stays non-empty and on the grid, the heading lawful, and, unless the
/// tick was fatal, no cell occupied twice.
pub proof fn lemma_tick_wf(
    m: SnakeModel,
    stones: Seq<Stone>,
    apple_pos: GridVector,
    input: Option<Direction>,
    now: u64,
)
    requires
        m.wf(),
        m.lost_at is None,
    ensures
        spec_tick(m, stones, apple_pos, input, now).wf(),
{
    let v = applied_velocity(m.velocity, input);
    let post = spec_tick(m, stones, apple_pos, input, now);
    assert(valid_velocity(v));
    if v != (GridVector { x: 0 as GridUnit, y: 0 as GridUnit }) {
        let h = spec_new_head(m, v);
        let collide = m.tail.contains(h) || stone_hit(stones, h);
        let ate = h == apple_pos;
        let grow1 = m.grow + if ate {
            GROW_PER_APPLE as int
        } else {
            0int
        };
        let tail1 = if collide || grow1 > 0 {
            m.tail
        } else {
            m.tail.drop_first()
        };
        assert(spec_grid_area().contains(h));
        assert forall|i: int| 0 <= i < tail1.len() implies spec_grid_area().contains(
            #[trigger] tail1[i],
        ) by {
            if collide || grow1 > 0 {
                assert(tail1[i] == m.tail[i]);
            } else {
                assert(tail1[i] == m.tail[i + 1]);
            }
        }
        assert forall|i: int| 0 <= i < post.tail.len() implies spec_grid_area().contains(
            #[trigger] post.tail[i],
        ) by {
            if i < tail1.len() {
                assert(post.tail[i] == tail1[i]);
            } else {
                assert(post.tail[i] == h);
            }
        }
        if !collide {
            assert(!m.tail.contains(h));
            assert forall|i: int, j: int| 0 <= i < j < post.tail.len() implies post.tail[i]
                != post.tail[j] by {
                if j < tail1.len() {
                    if collide || grow1 > 0 {
                        assert(post.tail[i] == m.tail[i] && post.tail[j] == m.tail[j]);
                    } else {
                        assert(post.tail[i] == m.tail[i + 1] && post.tail[j] == m.tail[j + 1]);
                    }
                } else {
                    assert(post.tail[j] == h);
                    if collide || grow1 > 0 {
                        assert(post.tail[i] == m.tail[i]);
                        assert(m.tail.contains(m.tail[i]));
                    } else {
                        assert(post.tail[i] == m.tail[i + 1]);
                        assert(m.tail.contains(m.tail[i + 1]));
                    }
                }
            }
            assert(post.tail.no_duplicates());
        }
    }
}

/// The mutable game-play aggregate: the body, heading, pace and score of
/// one snake.
#[derive(Debug)]
pub struct Snake {
    /// Body cells in order; the head is the last element.
    pub tail: Vec<GridVector>,
    pub velocity: GridVector,
    /// Microseconds that must elapse between ticks.
    pub speed: u64,
    /// When the last tick was accepted, in microseconds.
    pub last_round: u64,
    /// When a fatal collision was detected, if one was.
    pub lost_at: Option<u64>,
    pub score: u32,
    /// Segments still owed to the tail from recent apples.
    pub grow: GridUnit,
}

impl View for Snake {
    type V = SnakeModel;

    open spec fn view(&self) -> SnakeModel {
        SnakeModel {
            tail: self.tail@,
            velocity: self.velocity,
            speed: self.speed as int,
            last_round: self.last_round as int,
            lost_at: match self.lost_at {
                Option::Some(t) => Option::Some(t as int),
                Option::None => Option::None,
            },
            score: self.score as int,
            grow: self.grow as int,
        }
    }
}

impl Snake {
    /// A fresh snake: one segment somewhere in the play area, the
    /// configured initial heading and pace, no score, and enough growth
    /// credit to reach the configured initial length.
    pub fn new(now: u64) -> (s: Snake)
        ensures
            s@.wf(),
            s@.tail.len() == 1,
            spec_play_area().contains(s@.tail[0]),
            s@.velocity == spec_initial_velocity(),
            s@.speed == INITIAL_SPEED,
            s@.last_round == now,
            s@.lost_at is None,
            s@.score == 0,
            s@.grow == INITIAL_SIZE - 1,
    {
        let area = crate::constants::play_area();
        let start = random_pos(&area);
        let mut tail: Vec<GridVector> = Vec::new();
        tail.push(start);
        Snake {
            tail,
            velocity: crate::constants::initial_velocity(),
            speed: INITIAL_SPEED,
            last_round: now,
            lost_at: Option::None,
            score: 0,
            grow: INITIAL_SIZE - 1,
        }
    }
}

} // verus!

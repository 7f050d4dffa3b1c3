use vstd::prelude::*;
use crate::base_types::GridArea;
use crate::base_types::GridUnit;
use crate::base_types::GridVector;
use crate::constants::play_area;
use crate::constants::spec_play_area;
use crate::constants::CORNER_SEGMENT_LENGTH;

verus! {

/// One immovable obstacle cell; running into it kills the snake.
#[derive(Debug, PartialEq, Eq, Structural, Copy, Clone)]
pub struct Stone {
    pub pos: GridVector,
}

impl Stone {
    pub fn new(x: GridUnit, y: GridUnit) -> (s: Stone)
        ensures
            s == spec_stone(x as int, y as int),
    {
        Self { pos: GridVector::new(x, y) }
    }
}

/// A stone at the given coordinates, as the layout specification writes it.
pub open spec fn spec_stone(x: int, y: int) -> Stone {
    Stone { pos: GridVector { x: x as GridUnit, y: y as GridUnit } }
}

/// `n` stones extending rightward from (but not including) `(cx, cy)`.
pub open spec fn arm_right(cx: int, cy: int, n: int) -> Seq<Stone> {
    Seq::new(n as nat, |i: int| spec_stone(cx + 1 + i, cy))
}

/// `n` stones extending leftward from (but not including) `(cx, cy)`.
pub open spec fn arm_left(cx: int, cy: int, n: int) -> Seq<Stone> {
    Seq::new(n as nat, |i: int| spec_stone(cx - 1 - i, cy))
}

/// `n` stones extending downward from (but not including) `(cx, cy)`.
pub open spec fn arm_down(cx: int, cy: int, n: int) -> Seq<Stone> {
    Seq::new(n as nat, |i: int| spec_stone(cx, cy + 1 + i))
}

/// `n` stones extending upward from (but not including) `(cx, cy)`.
pub open spec fn arm_up(cx: int, cy: int, n: int) -> Seq<Stone> {
    Seq::new(n as nat, |i: int| spec_stone(cx, cy - 1 - i))
}

/// The full obstacle layout around `area`: at each corner of the one-cell
/// frame just outside `area`, the corner stone and two arms along the two
/// adjacent frame edges.
pub open spec fn spec_layout(area: GridArea) -> Seq<Stone> {
    let lx = area.pos.x - 1;
    let ty = area.pos.y - 1;
    let rx = area.pos.x + area.size.x;
    let by = area.pos.y + area.size.y;
    let n = CORNER_SEGMENT_LENGTH - 1;
    seq![spec_stone(lx, ty)] + arm_right(lx, ty, n) + arm_down(lx, ty, n)
        + seq![spec_stone(rx, ty)] + arm_left(rx, ty, n) + arm_down(rx, ty, n)
        + seq![spec_stone(rx, by)] + arm_left(rx, by, n) + arm_up(rx, by, n)
        + seq![spec_stone(lx, by)] + arm_right(lx, by, n) + arm_up(lx, by, n)
}

/// The areas the layout is defined for: well-formed, away from the
/// coordinate limits, and wide enough for the arms not to overshoot the
/// opposite corner's edge cell.
pub open spec fn layout_area_ok(area: GridArea) -> bool {
    &&& area.wf()
    &&& area.pos.x > i16::MIN
    &&& area.pos.y > i16::MIN
    &&& area.pos.x + area.size.x <= i16::MAX
    &&& area.pos.y + area.size.y <= i16::MAX
    &&& area.size.x >= CORNER_SEGMENT_LENGTH - 1
    &&& area.size.y >= CORNER_SEGMENT_LENGTH - 1
}

/// Lays the border stones for `area`: the same stones, in the same order,
/// every time, and none of them inside `area`.
pub fn generate_layout(area: &GridArea) -> (stones: Vec<Stone>)
    requires
        layout_area_ok(*area),
    ensures
        stones@ == spec_layout(*area),
        forall|i: int| 0 <= i < stones@.len() ==> !area.contains(#[trigger] stones@[i].pos),
{
    let lx: GridUnit = area.pos.x - 1;
    let ty: GridUnit = area.pos.y - 1;
    let rx: GridUnit = area.pos.x + area.size.x;
    let by: GridUnit = area.pos.y + area.size.y;

    let mut stones: Vec<Stone> = Vec::new();

    stones.push(Stone::new(lx, ty));
    push_arm_right(&mut stones, lx, ty);
    push_arm_down(&mut stones, lx, ty);

    stones.push(Stone::new(rx, ty));
    push_arm_left(&mut stones, rx, ty);
    push_arm_down(&mut stones, rx, ty);

    stones.push(Stone::new(rx, by));
    push_arm_left(&mut stones, rx, by);
    push_arm_up(&mut stones, rx, by);

    stones.push(Stone::new(lx, by));
    push_arm_right(&mut stones, lx, by);
    push_arm_up(&mut stones, lx, by);

    proof {
        assert(stones@ =~= spec_layout(*area));
        lemma_layout_outside(*area);
    }
    stones
}

/// No stone of the layout lies inside the area it frames.
pub proof fn lemma_layout_outside(area: GridArea)
    requires
        layout_area_ok(area),
    ensures
        forall|i: int|
            0 <= i < spec_layout(area).len() ==> !area.contains(
                #[trigger] spec_layout(area)[i].pos,
            ),
{
}

fn push_arm_right(stones: &mut Vec<Stone>, cx: GridUnit, cy: GridUnit)
    requires
        cx + CORNER_SEGMENT_LENGTH - 1 <= i16::MAX,
    ensures
        final(stones)@ == old(stones)@ + arm_right(cx as int, cy as int, CORNER_SEGMENT_LENGTH - 1),
{
    let mut i: GridUnit = 1;
    while i < CORNER_SEGMENT_LENGTH
        invariant
            1 <= i <= CORNER_SEGMENT_LENGTH,
            cx + CORNER_SEGMENT_LENGTH - 1 <= i16::MAX,
            stones@ =~= old(stones)@ + arm_right(cx as int, cy as int, i - 1),
        decreases CORNER_SEGMENT_LENGTH - i,
    {
        stones.push(Stone::new(cx + i, cy));
        i = i + 1;
    }
}

fn push_arm_left(stones: &mut Vec<Stone>, cx: GridUnit, cy: GridUnit)
    requires
        cx - (CORNER_SEGMENT_LENGTH - 1) >= i16::MIN,
    ensures
        final(stones)@ == old(stones)@ + arm_left(cx as int, cy as int, CORNER_SEGMENT_LENGTH - 1),
{
    let mut i: GridUnit = 1;
    while i < CORNER_SEGMENT_LENGTH
        invariant
            1 <= i <= CORNER_SEGMENT_LENGTH,
            cx - (CORNER_SEGMENT_LENGTH - 1) >= i16::MIN,
            stones@ =~= old(stones)@ + arm_left(cx as int, cy as int, i - 1),
        decreases CORNER_SEGMENT_LENGTH - i,
    {
        stones.push(Stone::new(cx - i, cy));
        i = i + 1;
    }
}

fn push_arm_down(stones: &mut Vec<Stone>, cx: GridUnit, cy: GridUnit)
    requires
        cy + CORNER_SEGMENT_LENGTH - 1 <= i16::MAX,
    ensures
        final(stones)@ == old(stones)@ + arm_down(cx as int, cy as int, CORNER_SEGMENT_LENGTH - 1),
{
    let mut i: GridUnit = 1;
    while i < CORNER_SEGMENT_LENGTH
        invariant
            1 <= i <= CORNER_SEGMENT_LENGTH,
            cy + CORNER_SEGMENT_LENGTH - 1 <= i16::MAX,
            stones@ =~= old(stones)@ + arm_down(cx as int, cy as int, i - 1),
        decreases CORNER_SEGMENT_LENGTH - i,
    {
        stones.push(Stone::new(cx, cy + i));
        i = i + 1;
    }
}

fn push_arm_up(stones: &mut Vec<Stone>, cx: GridUnit, cy: GridUnit)
    requires
        cy - (CORNER_SEGMENT_LENGTH - 1) >= i16::MIN,
    ensures
        final(stones)@ == old(stones)@ + arm_up(cx as int, cy as int, CORNER_SEGMENT_LENGTH - 1),
{
    let mut i: GridUnit = 1;
    while i < CORNER_SEGMENT_LENGTH
        invariant
            1 <= i <= CORNER_SEGMENT_LENGTH,
            cy - (CORNER_SEGMENT_LENGTH - 1) >= i16::MIN,
            stones@ =~= old(stones)@ + arm_up(cx as int, cy as int, i - 1),
        decreases CORNER_SEGMENT_LENGTH - i,
    {
        stones.push(Stone::new(cx, cy - i));
        i = i + 1;
    }
}

/// The stones framing the fixed play area.
pub fn level_corners() -> (stones: Vec<Stone>)
    ensures
        stones@ == spec_layout(spec_play_area()),
        forall|i: int|
            0 <= i < stones@.len() ==> !spec_play_area().contains(#[trigger] stones@[i].pos),
{
    let area = play_area();
    generate_layout(&area)
}

} // verus!

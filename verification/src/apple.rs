use vstd::prelude::*;
use crate::base_types::GridArea;
use crate::base_types::GridUnit;
use crate::base_types::GridVector;
use crate::utils::random_pos;

verus! {

/// Random placements tried before falling back to a deterministic sweep
/// of the area.
pub const SPAWN_ATTEMPTS: u32 = 10_000;

/// The collectible the snake grows by eating.  A fresh one is constructed
/// each time the old one is eaten.
#[derive(Debug, PartialEq, Eq, Structural, Copy, Clone)]
pub struct Apple {
    pub position: GridVector,
    pub spawned_at: u64,
}

impl Apple {
    pub fn new(pos: GridVector, now: u64) -> (a: Apple)
        ensures
            a.position == pos,
            a.spawned_at == now,
    {
        Apple { position: pos, spawned_at: now }
    }
}

/// Whether some cell of `cells` equals `p`.
pub fn conflicts_with(cells: &[GridVector], p: GridVector) -> (b: bool)
    ensures
        b == cells@.contains(p),
{
    let mut i: usize = 0;
    while i < cells.len()
        invariant
            0 <= i <= cells@.len(),
            forall|j: int| 0 <= j < i ==> cells@[j] != p,
        decreases cells@.len() - i,
    {
        if cells[i] == p {
            return true;
        }
        i = i + 1;
    }
    false
}

/// The cells of `area` that come before offset `(dx, dy)` in a sweep that
/// walks each column top to bottom, columns left to right.
pub open spec fn swept_before(area: GridArea, p: GridVector, dx: int, dy: int) -> bool {
    ||| p.x - area.pos.x < dx
    ||| (p.x - area.pos.x == dx && p.y - area.pos.y < dy)
}

/// Places a fresh apple on a cell of `area` that misses every cell in
/// `conflicts`: random draws first, then a sweep of the whole area, which
/// succeeds because `conflicts` does not cover `area`.
pub fn spawn_apple_in_area(area: &GridArea, conflicts: &[GridVector], now: u64) -> (a: Apple)
    requires
        area.wf(),
        exists|p: GridVector| area.contains(p) && !conflicts@.contains(p),
    ensures
        area.contains(a.position),
        !conflicts@.contains(a.position),
        a.spawned_at == now,
{
    let mut attempts: u32 = 0;
    while attempts < SPAWN_ATTEMPTS
        invariant
            area.wf(),
        decreases SPAWN_ATTEMPTS - attempts,
    {
        let pos = random_pos(area);
        if !conflicts_with(conflicts, pos) {
            return Apple::new(pos, now);
        }
        attempts = attempts + 1;
    }

    let mut dx: GridUnit = 0;
    while dx < area.size.x
        invariant
            area.wf(),
            0 <= dx <= area.size.x,
            exists|p: GridVector| area.contains(p) && !conflicts@.contains(p),
            forall|p: GridVector|
                area.contains(p) && swept_before(*area, p, dx as int, 0) ==> #[trigger] conflicts@.contains(p),
        decreases area.size.x - dx,
    {
        let mut dy: GridUnit = 0;
        while dy < area.size.y
            invariant
                area.wf(),
                0 <= dx < area.size.x,
                0 <= dy <= area.size.y,
                forall|p: GridVector|
                    area.contains(p) && swept_before(*area, p, dx as int, dy as int)
                        ==> #[trigger] conflicts@.contains(p),
            decreases area.size.y - dy,
        {
            let pos = GridVector { x: area.pos.x + dx, y: area.pos.y + dy };
            if !conflicts_with(conflicts, pos) {
                return Apple::new(pos, now);
            }
            dy = dy + 1;
        }
        dx = dx + 1;
    }

    proof {
        let p0 = choose|p: GridVector| area.contains(p) && !conflicts@.contains(p);
        assert(swept_before(*area, p0, area.size.x as int, 0));
        assert(false);
    }
    Apple::new(GridVector { x: area.pos.x, y: area.pos.y }, now)
}

} // verus!

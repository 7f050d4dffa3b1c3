use vstd::prelude::*;
use vstd::arithmetic::div_mod::lemma_mod_division_less_than_divisor;
use crate::base_types::GridArea;
use crate::base_types::GridUnit;
use crate::base_types::GridVector;
use crate::constants::grid_area;
use crate::constants::spec_grid_area;

verus! {

/// Where wrapping maps a point: per axis, the floored remainder of the
/// offset from the region's origin, placed back at that origin.
pub open spec fn wrapped(area: GridArea, p: GridVector) -> GridVector {
    GridVector {
        x: (((p.x - area.pos.x) % (area.size.x as int)) + area.pos.x) as GridUnit,
        y: (((p.y - area.pos.y) % (area.size.y as int)) + area.pos.y) as GridUnit,
    }
}

/// Floored (always non-negative) modulus on grid coordinates.
pub fn modulus(n: GridUnit, m: GridUnit) -> (r: GridUnit)
    requires
        0 < m,
    ensures
        r == (n as int) % (m as int),
{
    proof {
        lemma_mod_division_less_than_divisor(n as int, m as int);
    }
    match n.checked_rem_euclid(m) {
        Some(r) => r,
        None => 0,
    }
}

/// Maps `point` into `area`, however far outside it lies.
pub fn wrap_in(area: &GridArea, point: GridVector) -> (r: GridVector)
    requires
        area.wf(),
    ensures
        r == wrapped(*area, point),
        area.contains(r),
{
    let dx: i32 = point.x as i32 - area.pos.x as i32;
    let dy: i32 = point.y as i32 - area.pos.y as i32;
    let mx: i32 = area.size.x as i32;
    let my: i32 = area.size.y as i32;
    proof {
        lemma_mod_division_less_than_divisor(dx as int, mx as int);
        lemma_mod_division_less_than_divisor(dy as int, my as int);
    }
    let ex: i32 = match dx.checked_rem_euclid(mx) {
        Some(v) => v,
        None => 0,
    };
    let ey: i32 = match dy.checked_rem_euclid(my) {
        Some(v) => v,
        None => 0,
    };
    let wx: i32 = ex + area.pos.x as i32;
    let wy: i32 = ey + area.pos.y as i32;
    GridVector { x: wx as GridUnit, y: wy as GridUnit }
}

/// Relies on rand::random: draws an arbitrary value; nothing is promised
/// of which one.
pub assume_specification<T>[ rand::random::<T> ]() -> (r: T)
    where
        rand::distributions::Standard: rand::distributions::Distribution<T>,
;

/// A randomly drawn cell of `area`.  Which cell comes back is up to the
/// random number generator; only membership in `area` is promised.
pub fn random_pos(area: &GridArea) -> (r: GridVector)
    requires
        area.wf(),
    ensures
        area.contains(r),
{
    let x: GridUnit = rand::random::<GridUnit>();
    let y: GridUnit = rand::random::<GridUnit>();
    wrap_in(area, GridVector { x, y })
}

/// Maps `point` into the full grid.
pub fn wrap_in_grid(point: GridVector) -> (r: GridVector)
    ensures
        r == wrapped(spec_grid_area(), point),
        spec_grid_area().contains(r),
{
    let area = grid_area();
    wrap_in(&area, point)
}

} // verus!

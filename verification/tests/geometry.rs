use snake::conflicts_with;
use snake::generate_layout;
use snake::grid_area;
use snake::level_corners;
use snake::modulus;
use snake::play_area;
use snake::spawn_apple_in_area;
use snake::wrap_in;
use snake::wrap_in_grid;
use snake::GridArea;
use snake::GridVector;
use snake::Stone;

fn gv(x: i16, y: i16) -> GridVector {
    GridVector { x, y }
}

#[test]
fn modulus_is_never_negative() {
    assert_eq!(modulus(7, 5), 2);
    assert_eq!(modulus(-7, 5), 3);
    assert_eq!(modulus(-10, 5), 0);
    assert_eq!(modulus(0, 5), 0);
    assert_eq!(modulus(-1, 22), 21);
}

#[test]
fn wrap_keeps_interior_points() {
    let area = play_area();
    assert_eq!(wrap_in(&area, gv(5, 5)), gv(5, 5));
    assert_eq!(wrap_in(&area, gv(2, 2)), gv(2, 2));
    assert_eq!(wrap_in(&area, gv(37, 19)), gv(37, 19));
}

#[test]
fn wrap_maps_far_points_into_area() {
    let area = GridArea { pos: gv(0, 0), size: gv(10, 10) };
    assert_eq!(wrap_in(&area, gv(-3, 25)), gv(7, 5));
    let play = play_area();
    assert_eq!(wrap_in(&play, gv(1, 1)), gv(37, 19));
    assert_eq!(wrap_in_grid(gv(40, 22)), gv(0, 0));
    assert_eq!(wrap_in_grid(gv(-1, -1)), gv(39, 21));
    assert_eq!(wrap_in_grid(gv(i16::MAX, i16::MIN)), gv(7, 12));
}

#[test]
fn wrap_stays_inside_for_scattered_points() {
    let area = grid_area();
    for x in [-32768, -1000, -41, -1, 0, 39, 40, 100, 32767] {
        for y in [-32768, -23, -1, 0, 21, 22, 500, 32767] {
            let w = wrap_in(&area, gv(x as i16, y as i16));
            assert!(0 <= w.x && w.x < 40);
            assert!(0 <= w.y && w.y < 22);
        }
    }
}

#[test]
fn level_corners_exact_layout() {
    let stones = level_corners();
    let expected: Vec<(i16, i16)> = vec![
        (1, 1), (2, 1), (3, 1), (4, 1), (5, 1), (1, 2), (1, 3), (1, 4), (1, 5),
        (38, 1), (37, 1), (36, 1), (35, 1), (34, 1), (38, 2), (38, 3), (38, 4), (38, 5),
        (38, 20), (37, 20), (36, 20), (35, 20), (34, 20), (38, 19), (38, 18), (38, 17), (38, 16),
        (1, 20), (2, 20), (3, 20), (4, 20), (5, 20), (1, 19), (1, 18), (1, 17), (1, 16),
    ];
    assert_eq!(stones.len(), expected.len());
    for (s, (x, y)) in stones.iter().zip(expected.iter()) {
        assert_eq!(s.pos, gv(*x, *y));
    }
}

#[test]
fn level_corners_is_deterministic() {
    let a = level_corners();
    let b = level_corners();
    assert_eq!(a, b);
}

#[test]
fn layout_has_no_duplicates() {
    let stones = level_corners();
    for i in 0..stones.len() {
        for j in (i + 1)..stones.len() {
            assert_ne!(stones[i].pos, stones[j].pos);
        }
    }
}

fn no_stone_inside(area: &GridArea, stones: &[Stone]) {
    for s in stones {
        let inside = area.pos.x <= s.pos.x
            && s.pos.x < area.pos.x + area.size.x
            && area.pos.y <= s.pos.y
            && s.pos.y < area.pos.y + area.size.y;
        assert!(!inside, "stone {:?} lies inside the area", s.pos);
    }
}

#[test]
fn no_stone_inside_play_area() {
    let area = play_area();
    let stones = level_corners();
    no_stone_inside(&area, &stones);
}

#[test]
fn generate_layout_other_area() {
    let area = GridArea { pos: gv(0, 0), size: gv(10, 10) };
    let stones = generate_layout(&area);
    assert_eq!(stones.len(), 36);
    no_stone_inside(&area, &stones);
    assert_eq!(stones[0].pos, gv(-1, -1));
    assert_eq!(stones[9].pos, gv(10, -1));
    assert_eq!(stones[18].pos, gv(10, 10));
    assert_eq!(stones[27].pos, gv(-1, 10));
}

#[test]
fn spawned_apple_avoids_conflicts() {
    let area = play_area();
    let mut conflicts: Vec<GridVector> = Vec::new();
    for x in 2..38 {
        for y in 2..12 {
            conflicts.push(gv(x, y));
        }
    }
    let apple = spawn_apple_in_area(&area, &conflicts, 42);
    assert_eq!(apple.spawned_at, 42);
    assert!(2 <= apple.position.x && apple.position.x < 38);
    assert!(12 <= apple.position.y && apple.position.y < 20);
    assert!(!conflicts.contains(&apple.position));
}

#[test]
fn spawned_apple_takes_the_single_free_cell() {
    let area = GridArea { pos: gv(0, 0), size: gv(3, 3) };
    let mut conflicts: Vec<GridVector> = Vec::new();
    for x in 0..3 {
        for y in 0..3 {
            if !(x == 1 && y == 2) {
                conflicts.push(gv(x, y));
            }
        }
    }
    let apple = spawn_apple_in_area(&area, &conflicts, 7);
    assert_eq!(apple.position, gv(1, 2));
    assert_eq!(apple.spawned_at, 7);
}

#[test]
fn conflict_scan_matches_membership() {
    let cells = vec![gv(1, 1), gv(2, 3)];
    assert!(conflicts_with(&cells, gv(2, 3)));
    assert!(!conflicts_with(&cells, gv(3, 2)));
    assert!(!conflicts_with(&[], gv(0, 0)));
}

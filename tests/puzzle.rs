use twisty_cube::geometry::{coord_component, rotate_coord, Coord, CubeAxis};
use twisty_cube::puzzle::Puzzle;

const AXES: [CubeAxis; 3] = [CubeAxis::X, CubeAxis::Y, CubeAxis::Z];

#[test]
fn new_puzzle_has_every_cell_but_the_center() {
    let p = Puzzle::new();
    assert_eq!(p.cubies.len(), 26);
    let mut k = 0;
    for x in 0..3 {
        for y in 0..3 {
            for z in 0..3 {
                if (x, y, z) == (1, 1, 1) {
                    continue;
                }
                assert_eq!(p.cubies[k].coord, Coord { x, y, z });
                assert!(!p.cubies[k].dragged);
                k += 1;
            }
        }
    }
}

#[test]
fn marked_slice_has_nine_cubies() {
    for axis in AXES {
        for index in 0..3 {
            let mut p = Puzzle::new();
            p.mark_slice(axis, index);
            let marked = p.cubies.iter().filter(|c| c.dragged).count();
            let expected = if index == 1 { 8 } else { 9 };
            assert_eq!(marked, expected);
            assert_eq!(p.cubies.iter().filter(|c| !c.dragged).count(), 26 - expected);
            for c in &p.cubies {
                assert_eq!(c.dragged, coord_component(c.coord, axis) == index);
            }
        }
    }
}

#[test]
fn complete_turn_moves_only_the_marked_slice() {
    let mut p = Puzzle::new();
    let before = p.cubies.clone();
    p.mark_slice(CubeAxis::Y, 0);
    p.complete_turn(CubeAxis::Y, 0, 1);
    for (old, new) in before.iter().zip(p.cubies.iter()) {
        assert!(!new.dragged);
        if old.coord.y == 0 {
            assert_eq!(new.coord, rotate_coord(CubeAxis::Y, 1, old.coord));
        } else {
            assert_eq!(new.coord, old.coord);
        }
    }
    // The corner at (0, 0, 0) goes to (0, 0, 2) under a quarter turn about +Y.
    assert_eq!(p.cubies[0].coord, Coord { x: 0, y: 0, z: 2 });
}

#[test]
fn four_turns_restore_the_puzzle() {
    let mut p = Puzzle::new();
    let before = p.cubies.clone();
    for _ in 0..4 {
        p.mark_slice(CubeAxis::Z, 2);
        p.complete_turn(CubeAxis::Z, 2, 1);
    }
    assert_eq!(p.cubies, before);
}

#[test]
fn coordinates_stay_distinct_after_turns() {
    let mut p = Puzzle::new();
    let moves = [(CubeAxis::X, 0, 1), (CubeAxis::Y, 2, 3), (CubeAxis::Z, 1, 2), (CubeAxis::X, 2, 1)];
    for (axis, index, turns) in moves {
        p.mark_slice(axis, index);
        p.complete_turn(axis, index, turns);
    }
    for i in 0..26 {
        let a = p.cubies[i].coord;
        assert!(a.x < 3 && a.y < 3 && a.z < 3);
        assert_ne!(a, Coord { x: 1, y: 1, z: 1 });
        for j in (i + 1)..26 {
            assert_ne!(a, p.cubies[j].coord);
        }
    }
}

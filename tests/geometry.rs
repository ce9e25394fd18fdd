use twisty_cube::geometry::{axis_unit, coord_component, rotate_coord, Coord, CubeAxis, CubeFace, Step};

const AXES: [CubeAxis; 3] = [CubeAxis::X, CubeAxis::Y, CubeAxis::Z];
const FACES: [CubeFace; 6] = [
    CubeFace::PosX,
    CubeFace::NegX,
    CubeFace::PosY,
    CubeFace::NegY,
    CubeFace::PosZ,
    CubeFace::NegZ,
];

fn c(x: u32, y: u32, z: u32) -> Coord {
    Coord { x, y, z }
}

fn all_coords() -> Vec<Coord> {
    let mut v = Vec::new();
    for x in 0..3 {
        for y in 0..3 {
            for z in 0..3 {
                v.push(c(x, y, z));
            }
        }
    }
    v
}

#[test]
fn tables_give_exact_values() {
    let p = c(0, 1, 2);
    assert_eq!(rotate_coord(CubeAxis::X, 1, p), c(0, 0, 1));
    assert_eq!(rotate_coord(CubeAxis::X, 2, p), c(0, 1, 0));
    assert_eq!(rotate_coord(CubeAxis::X, 3, p), c(0, 2, 1));
    assert_eq!(rotate_coord(CubeAxis::Y, 1, p), c(2, 1, 2));
    assert_eq!(rotate_coord(CubeAxis::Y, 2, p), c(2, 1, 0));
    assert_eq!(rotate_coord(CubeAxis::Y, 3, p), c(0, 1, 0));
    assert_eq!(rotate_coord(CubeAxis::Z, 1, p), c(1, 0, 2));
    assert_eq!(rotate_coord(CubeAxis::Z, 2, p), c(2, 1, 2));
    assert_eq!(rotate_coord(CubeAxis::Z, 3, p), c(1, 2, 2));
    for axis in AXES {
        assert_eq!(rotate_coord(axis, 0, p), p);
    }
}

#[test]
fn four_quarter_turns_are_identity() {
    for axis in AXES {
        for p in all_coords() {
            let mut q = p;
            for _ in 0..4 {
                q = rotate_coord(axis, 1, q);
            }
            assert_eq!(q, p);
        }
    }
}

#[test]
fn quarter_turns_compose() {
    for axis in AXES {
        for p in all_coords() {
            assert_eq!(rotate_coord(axis, 1, rotate_coord(axis, 1, p)), rotate_coord(axis, 2, p));
            assert_eq!(rotate_coord(axis, 1, rotate_coord(axis, 2, p)), rotate_coord(axis, 3, p));
        }
    }
}

#[test]
fn tables_are_bijections_on_each_slice() {
    for axis in AXES {
        for turns in 0..4 {
            for index in 0..3 {
                let slice: Vec<Coord> = all_coords()
                    .into_iter()
                    .filter(|p| coord_component(*p, axis) == index)
                    .collect();
                assert_eq!(slice.len(), 9);
                let mut images: Vec<Coord> = Vec::new();
                for p in &slice {
                    let q = rotate_coord(axis, turns, *p);
                    assert!(q.x < 3 && q.y < 3 && q.z < 3);
                    assert_eq!(coord_component(q, axis), index);
                    assert!(!images.contains(&q));
                    images.push(q);
                }
                for p in &slice {
                    assert!(images.contains(p));
                }
            }
        }
    }
}

#[test]
fn center_is_fixed() {
    for axis in AXES {
        for turns in 0..4 {
            assert_eq!(rotate_coord(axis, turns, c(1, 1, 1)), c(1, 1, 1));
        }
    }
}

#[test]
fn quarter_turn_matches_right_handed_rotation() {
    // A quarter turn about +Z sends +X to +Y.
    assert_eq!(rotate_coord(CubeAxis::Z, 1, c(2, 1, 0)), c(1, 2, 0));
    // About +X it sends +Y to +Z.
    assert_eq!(rotate_coord(CubeAxis::X, 1, c(0, 2, 1)), c(0, 1, 2));
    // About +Y it sends +Z to +X.
    assert_eq!(rotate_coord(CubeAxis::Y, 1, c(1, 0, 2)), c(2, 0, 1));
}

#[test]
fn candidate_axes_differ_for_every_face() {
    for face in FACES {
        let (a0, a1) = face.candidate_axes();
        assert_ne!(a0, a1);
        assert_ne!(a0, face.axis());
        assert_ne!(a1, face.axis());
    }
    assert_eq!(CubeFace::PosZ.candidate_axes(), (CubeAxis::X, CubeAxis::Y));
    assert_eq!(CubeFace::NegX.candidate_axes(), (CubeAxis::Z, CubeAxis::Y));
    assert_eq!(CubeFace::PosY.candidate_axes(), (CubeAxis::X, CubeAxis::Z));
}

fn dot(a: Step, b: Step) -> i32 {
    a.x * b.x + a.y * b.y + a.z * b.z
}

fn cross(a: Step, b: Step) -> Step {
    Step { x: a.y * b.z - a.z * b.y, y: a.z * b.x - a.x * b.z, z: a.x * b.y - a.y * b.x }
}

fn normal(face: CubeFace) -> Step {
    let u = axis_unit(face.axis());
    match face {
        CubeFace::PosX | CubeFace::PosY | CubeFace::PosZ => u,
        _ => Step { x: -u.x, y: -u.y, z: -u.z },
    }
}

#[test]
fn face_directions_follow_the_turn_axes() {
    assert_eq!(CubeFace::PosZ.up(), Step { x: 0, y: -1, z: 0 });
    assert_eq!(CubeFace::PosZ.right(), Step { x: 1, y: 0, z: 0 });
    assert_eq!(CubeFace::PosX.right(), Step { x: 0, y: 0, z: -1 });
    for face in FACES {
        let (a0, a1) = face.candidate_axes();
        let (up, right, n) = (face.up(), face.right(), normal(face));
        assert_eq!(dot(up, n), 0);
        assert_eq!(dot(right, n), 0);
        assert_eq!(dot(up, right), 0);
        assert_eq!(cross(axis_unit(a0), n), up);
        assert_eq!(cross(axis_unit(a1), n), right);
    }
}

#[test]
fn axis_units() {
    assert_eq!(axis_unit(CubeAxis::X), Step { x: 1, y: 0, z: 0 });
    assert_eq!(axis_unit(CubeAxis::Y), Step { x: 0, y: 1, z: 0 });
    assert_eq!(axis_unit(CubeAxis::Z), Step { x: 0, y: 0, z: 1 });
}

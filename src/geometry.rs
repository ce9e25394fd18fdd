//! Axes, faces, grid coordinates and the quarter-turn permutation tables.
use vstd::prelude::*;

verus! {

/// One of the three local axes of the cube.
#[derive(Clone, Copy, Debug, PartialEq, Eq, Structural)]
pub enum CubeAxis {
    X,
    Y,
    Z,
}

/// One of the six faces of the cube, named by its outward normal.
#[derive(Clone, Copy, Debug, PartialEq, Eq, Structural)]
pub enum CubeFace {
    PosX,
    NegX,
    PosY,
    NegY,
    PosZ,
    NegZ,
}

/// Logical grid coordinate of a cubie; (0, 0, 0) is left-bottom-back and
/// (2, 2, 2) is right-top-front.
#[derive(Clone, Copy, Debug, PartialEq, Eq, Structural)]
pub struct Coord {
    pub x: u32,
    pub y: u32,
    pub z: u32,
}

/// An integer vector in the cube's local space.
#[derive(Clone, Copy, Debug, PartialEq, Eq, Structural)]
pub struct Step {
    pub x: i32,
    pub y: i32,
    pub z: i32,
}

/// Every component lies in {0, 1, 2}.
pub open spec fn coord_valid(c: Coord) -> bool {
    c.x < 3 && c.y < 3 && c.z < 3
}

/// The hidden centre of the puzzle, which no cubie occupies.
pub open spec fn center() -> Coord {
    Coord { x: 1, y: 1, z: 1 }
}

/// The component of `c` along `axis`.
pub open spec fn component(c: Coord, axis: CubeAxis) -> u32 {
    match axis {
        CubeAxis::X => c.x,
        CubeAxis::Y => c.y,
        CubeAxis::Z => c.z,
    }
}

/// The coordinate after `turns` quarter turns about `axis`, for turns in 0..4;
/// one quarter turn is a right-handed 90-degree rotation about the centre cell.
pub open spec fn rotated(axis: CubeAxis, turns: u32, c: Coord) -> Coord {
    let (x, y, z) = (c.x as int, c.y as int, c.z as int);
    let (nx, ny, nz) = match axis {
        CubeAxis::X => if turns == 1 {
            (x, 2 - z, y)
        } else if turns == 2 {
            (x, 2 - y, 2 - z)
        } else if turns == 3 {
            (x, z, 2 - y)
        } else {
            (x, y, z)
        },
        CubeAxis::Y => if turns == 1 {
            (z, y, 2 - x)
        } else if turns == 2 {
            (2 - x, y, 2 - z)
        } else if turns == 3 {
            (2 - z, y, x)
        } else {
            (x, y, z)
        },
        CubeAxis::Z => if turns == 1 {
            (2 - y, x, z)
        } else if turns == 2 {
            (2 - x, 2 - y, z)
        } else if turns == 3 {
            (y, 2 - x, z)
        } else {
            (x, y, z)
        },
    };
    Coord { x: nx as u32, y: ny as u32, z: nz as u32 }
}

/// Returns the component of `c` along `axis`.
pub fn coord_component(c: Coord, axis: CubeAxis) -> (r: u32)
    ensures
        r == component(c, axis),
{
    match axis {
        CubeAxis::X => c.x,
        CubeAxis::Y => c.y,
        CubeAxis::Z => c.z,
    }
}

/// Applies the permutation table of `axis` for `turns` quarter turns.
pub fn rotate_coord(axis: CubeAxis, turns: u32, c: Coord) -> (r: Coord)
    requires
        coord_valid(c),
        turns < 4,
    ensures
        r == rotated(axis, turns, c),
        coord_valid(r),
{
    let (x, y, z) = (c.x, c.y, c.z);
    let (nx, ny, nz) = match axis {
        CubeAxis::X => match turns {
            1 => (x, 2 - z, y),
            2 => (x, 2 - y, 2 - z),
            3 => (x, z, 2 - y),
            _ => (x, y, z),
        },
        CubeAxis::Y => match turns {
            1 => (z, y, 2 - x),
            2 => (2 - x, y, 2 - z),
            3 => (2 - z, y, x),
            _ => (x, y, z),
        },
        CubeAxis::Z => match turns {
            1 => (2 - y, x, z),
            2 => (2 - x, 2 - y, z),
            3 => (y, 2 - x, z),
            _ => (x, y, z),
        },
    };
    Coord { x: nx, y: ny, z: nz }
}

/// Turning keeps a coordinate on the grid and on the slice it started in.
pub proof fn lemma_rotated_stays_in_slice(axis: CubeAxis, turns: u32, c: Coord)
    requires
        coord_valid(c),
    ensures
        coord_valid(rotated(axis, turns, c)),
        component(rotated(axis, turns, c), axis) == component(c, axis),
{
}

/// A quarter turn after `turns` quarter turns is `turns + 1` quarter turns.
pub proof fn lemma_quarter_turns_compose(axis: CubeAxis, turns: u32, c: Coord)
    requires
        coord_valid(c),
        turns < 4,
    ensures
        rotated(axis, 1, rotated(axis, turns, c)) == rotated(axis, ((turns + 1) % 4) as u32, c),
{
}

/// Four successive quarter turns about one axis give back the coordinate.
pub proof fn lemma_four_quarter_turns(axis: CubeAxis, c: Coord)
    requires
        coord_valid(c),
    ensures
        rotated(axis, 1, rotated(axis, 1, rotated(axis, 1, rotated(axis, 1, c)))) == c,
{
}

/// Turning by `turns` and then by the remaining quarter turns to a full
/// revolution gives back the coordinate, and so does the reverse order.
pub proof fn lemma_rotated_inverse(axis: CubeAxis, turns: u32, c: Coord)
    requires
        coord_valid(c),
        turns < 4,
    ensures
        rotated(axis, ((4 - turns) % 4) as u32, rotated(axis, turns, c)) == c,
        rotated(axis, turns, rotated(axis, ((4 - turns) % 4) as u32, c)) == c,
{
}

/// Each table is one to one on the grid: two coordinates that turn to the same
/// one were equal, and every grid coordinate is reached from one on the grid.
pub proof fn lemma_rotated_bijective(axis: CubeAxis, turns: u32, a: Coord, b: Coord)
    requires
        coord_valid(a),
        coord_valid(b),
        turns < 4,
    ensures
        rotated(axis, turns, a) == rotated(axis, turns, b) ==> a == b,
        coord_valid(rotated(axis, ((4 - turns) % 4) as u32, a)),
        rotated(axis, turns, rotated(axis, ((4 - turns) % 4) as u32, a)) == a,
{
    lemma_rotated_inverse(axis, turns, a);
}

/// The hidden centre stays where it is under every table.
pub proof fn lemma_rotated_fixes_center(axis: CubeAxis, turns: u32)
    ensures
        rotated(axis, turns, center()) == center(),
{
}

/// The offset of a cell from the centre cell, in cells.
pub open spec fn offset(c: Coord) -> (int, int, int) {
    (c.x - 1, c.y - 1, c.z - 1)
}

/// A right-handed rotation of `v` by 90 degrees about `axis`.
pub open spec fn quarter_rotation(axis: CubeAxis, v: (int, int, int)) -> (int, int, int) {
    match axis {
        CubeAxis::X => (v.0, -v.2, v.1),
        CubeAxis::Y => (v.2, v.1, -v.0),
        CubeAxis::Z => (-v.1, v.0, v.2),
    }
}

/// `n` successive right-handed quarter rotations of `v` about `axis`.
pub open spec fn quarter_rotations(axis: CubeAxis, n: nat, v: (int, int, int)) -> (int, int, int)
    decreases n,
{
    if n == 0 {
        v
    } else {
        quarter_rotation(axis, quarter_rotations(axis, (n - 1) as nat, v))
    }
}

/// The tables agree with the rigid motion that the slice performs on screen:
/// a cell's offset from the centre turns by `turns` right-handed quarter
/// rotations about the axis.
pub proof fn lemma_rotated_is_rigid_rotation(axis: CubeAxis, turns: u32, c: Coord)
    requires
        coord_valid(c),
        turns < 4,
    ensures
        offset(rotated(axis, turns, c)) == quarter_rotations(axis, turns as nat, offset(c)),
{
    reveal_with_fuel(quarter_rotations, 4);
}

/// The unit vector along `axis`.
pub open spec fn unit(axis: CubeAxis) -> (int, int, int) {
    match axis {
        CubeAxis::X => (1, 0, 0),
        CubeAxis::Y => (0, 1, 0),
        CubeAxis::Z => (0, 0, 1),
    }
}

/// The axis that the outward normal of `face` lies on.
pub open spec fn normal_axis(face: CubeFace) -> CubeAxis {
    match face {
        CubeFace::PosX | CubeFace::NegX => CubeAxis::X,
        CubeFace::PosY | CubeFace::NegY => CubeAxis::Y,
        CubeFace::PosZ | CubeFace::NegZ => CubeAxis::Z,
    }
}

/// The outward unit normal of `face`.
pub open spec fn normal(face: CubeFace) -> (int, int, int) {
    match face {
        CubeFace::PosX => (1, 0, 0),
        CubeFace::NegX => (-1, 0, 0),
        CubeFace::PosY => (0, 1, 0),
        CubeFace::NegY => (0, -1, 0),
        CubeFace::PosZ => (0, 0, 1),
        CubeFace::NegZ => (0, 0, -1),
    }
}

/// The two turn axes offered by a hit on `face`: the first is the axis of the
/// face's horizontal cell coordinate, the second that of its vertical one.
pub open spec fn candidate_axes(face: CubeFace) -> (CubeAxis, CubeAxis) {
    match face {
        CubeFace::PosX | CubeFace::NegX => (CubeAxis::Z, CubeAxis::Y),
        CubeFace::PosY | CubeFace::NegY => (CubeAxis::X, CubeAxis::Z),
        CubeFace::PosZ | CubeFace::NegZ => (CubeAxis::X, CubeAxis::Y),
    }
}

/// The "up" direction drawn on `face`, in local space.
pub open spec fn up_direction(face: CubeFace) -> (int, int, int) {
    match face {
        CubeFace::PosX => (0, 1, 0),
        CubeFace::NegX => (0, -1, 0),
        CubeFace::PosY => (0, 0, 1),
        CubeFace::NegY => (0, 0, -1),
        CubeFace::PosZ => (0, -1, 0),
        CubeFace::NegZ => (0, 1, 0),
    }
}

/// The "right" direction drawn on `face`, in local space.
pub open spec fn right_direction(face: CubeFace) -> (int, int, int) {
    match face {
        CubeFace::PosX => (0, 0, -1),
        CubeFace::NegX => (0, 0, 1),
        CubeFace::PosY => (-1, 0, 0),
        CubeFace::NegY => (1, 0, 0),
        CubeFace::PosZ => (1, 0, 0),
        CubeFace::NegZ => (-1, 0, 0),
    }
}

/// The dot product.
pub open spec fn dot(a: (int, int, int), b: (int, int, int)) -> int {
    a.0 * b.0 + a.1 * b.1 + a.2 * b.2
}

/// The cross product.
pub open spec fn cross(a: (int, int, int), b: (int, int, int)) -> (int, int, int) {
    (a.1 * b.2 - a.2 * b.1, a.2 * b.0 - a.0 * b.2, a.0 * b.1 - a.1 * b.0)
}

/// The components of `a` as integers.
pub open spec fn as_triple(a: Step) -> (int, int, int) {
    (a.x as int, a.y as int, a.z as int)
}

/// A pick on any face offers two different axes, neither of them the axis of
/// the face's normal, so the two candidate slices always turn differently.
pub proof fn lemma_candidate_axes_distinct(face: CubeFace)
    ensures
        candidate_axes(face).0 != candidate_axes(face).1,
        candidate_axes(face).0 != normal_axis(face),
        candidate_axes(face).1 != normal_axis(face),
{
}

/// The drawn directions lie in the face, are perpendicular, and each is the
/// way the hit point moves when its candidate slice turns by a positive angle:
/// up is the first axis crossed with the normal, right the second one.
pub proof fn lemma_face_directions(face: CubeFace)
    ensures
        dot(up_direction(face), normal(face)) == 0,
        dot(right_direction(face), normal(face)) == 0,
        dot(up_direction(face), right_direction(face)) == 0,
        up_direction(face) == cross(unit(candidate_axes(face).0), normal(face)),
        right_direction(face) == cross(unit(candidate_axes(face).1), normal(face)),
{
    // The products of table entries need the nonlinear solver.
    assert({
        &&& dot(up_direction(face), normal(face)) == 0
        &&& dot(right_direction(face), normal(face)) == 0
        &&& dot(up_direction(face), right_direction(face)) == 0
        &&& up_direction(face) == cross(unit(candidate_axes(face).0), normal(face))
        &&& right_direction(face) == cross(unit(candidate_axes(face).1), normal(face))
    }) by (nonlinear_arith);
}

/// Returns the unit vector along `axis`.
pub fn axis_unit(axis: CubeAxis) -> (r: Step)
    ensures
        as_triple(r) == unit(axis),
{
    match axis {
        CubeAxis::X => Step { x: 1, y: 0, z: 0 },
        CubeAxis::Y => Step { x: 0, y: 1, z: 0 },
        CubeAxis::Z => Step { x: 0, y: 0, z: 1 },
    }
}

impl CubeFace {
    /// The axis of this face's normal.
    pub fn axis(self) -> (r: CubeAxis)
        ensures
            r == normal_axis(self),
    {
        match self {
            CubeFace::PosX | CubeFace::NegX => CubeAxis::X,
            CubeFace::PosY | CubeFace::NegY => CubeAxis::Y,
            CubeFace::PosZ | CubeFace::NegZ => CubeAxis::Z,
        }
    }

    /// The two turn axes a hit on this face offers, in candidate order.
    pub fn candidate_axes(self) -> (r: (CubeAxis, CubeAxis))
        ensures
            r == candidate_axes(self),
    {
        match self {
            CubeFace::PosX | CubeFace::NegX => (CubeAxis::Z, CubeAxis::Y),
            CubeFace::PosY | CubeFace::NegY => (CubeAxis::X, CubeAxis::Z),
            CubeFace::PosZ | CubeFace::NegZ => (CubeAxis::X, CubeAxis::Y),
        }
    }

    /// The local "up" direction of this face.
    pub fn up(self) -> (r: Step)
        ensures
            as_triple(r) == up_direction(self),
    {
        match self {
            CubeFace::PosX => Step { x: 0, y: 1, z: 0 },
            CubeFace::NegX => Step { x: 0, y: -1, z: 0 },
            CubeFace::PosY => Step { x: 0, y: 0, z: 1 },
            CubeFace::NegY => Step { x: 0, y: 0, z: -1 },
            CubeFace::PosZ => Step { x: 0, y: -1, z: 0 },
            CubeFace::NegZ => Step { x: 0, y: 1, z: 0 },
        }
    }

    /// The local "right" direction of this face.
    pub fn right(self) -> (r: Step)
        ensures
            as_triple(r) == right_direction(self),
    {
        match self {
            CubeFace::PosX => Step { x: 0, y: 0, z: -1 },
            CubeFace::NegX => Step { x: 0, y: 0, z: 1 },
            CubeFace::PosY => Step { x: -1, y: 0, z: 0 },
            CubeFace::NegY => Step { x: 1, y: 0, z: 0 },
            CubeFace::PosZ => Step { x: 1, y: 0, z: 0 },
            CubeFace::NegZ => Step { x: -1, y: 0, z: 0 },
        }
    }
}

} // verus!

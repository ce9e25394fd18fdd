//! The 26 visible cubies held in a flat arena, addressed by a stable index.
use vstd::prelude::*;
use vstd::set_lib::{set_int_range, lemma_int_range, lemma_subset_equality, lemma_map_size, lemma_len_subset};
use crate::geometry::{
    Coord, CubeAxis, coord_valid, center, component, rotated, coord_component, rotate_coord,
    lemma_rotated_stays_in_slice, lemma_rotated_bijective, lemma_rotated_fixes_center,
};

verus! {

/// One visible sub-cube: its logical grid coordinate, and whether it belongs
/// to the slice that is being turned.
#[derive(Clone, Copy, Debug, PartialEq, Eq, Structural)]
pub struct Cubie {
    pub coord: Coord,
    pub dragged: bool,
}

/// The puzzle's cubies. The index of a cubie in `cubies` is its identity.
pub struct Puzzle {
    pub cubies: Vec<Cubie>,
}

/// A number for each grid cell, increasing in x, then y, then z order.
pub open spec fn cell_key(c: Coord) -> int {
    9 * c.x + 3 * c.y + c.z
}

/// 26 cubies on distinct grid cells, none of them the centre.
pub open spec fn cubies_wf(s: Seq<Cubie>) -> bool {
    &&& s.len() == 26
    &&& forall|i: int| 0 <= i < s.len() ==> coord_valid(#[trigger] s[i].coord) && s[i].coord != center()
    &&& forall|i: int, j: int|
        0 <= i < s.len() && 0 <= j < s.len() && i != j ==> #[trigger] s[i].coord != #[trigger] s[j].coord
}

/// The cubie lies on the slice of `axis` at `index`.
pub open spec fn on_slice(c: Cubie, axis: CubeAxis, index: u32) -> bool {
    component(c.coord, axis) == index
}

/// Exactly the cubies on the slice of `axis` at `index` are marked.
pub open spec fn marks_slice(s: Seq<Cubie>, axis: CubeAxis, index: u32) -> bool {
    forall|i: int| 0 <= i < s.len() ==> (#[trigger] s[i]).dragged == on_slice(s[i], axis, index)
}

/// No cubie is marked.
pub open spec fn none_marked(s: Seq<Cubie>) -> bool {
    forall|i: int| 0 <= i < s.len() ==> !(#[trigger] s[i]).dragged
}

/// Where a cubie goes when the marked slice completes `turns` quarter turns.
pub open spec fn after_turn(c: Cubie, axis: CubeAxis, turns: u32) -> Cubie {
    Cubie { coord: if c.dragged { rotated(axis, turns, c.coord) } else { c.coord }, dragged: false }
}

/// The unmarked puzzle in its solved arrangement: every cell but the centre,
/// in increasing `cell_key` order.
pub open spec fn solved(s: Seq<Cubie>) -> bool {
    &&& cubies_wf(s)
    &&& none_marked(s)
    &&& forall|i: int, j: int| 0 <= i < j < s.len() ==> cell_key(#[trigger] s[i].coord) < cell_key(#[trigger] s[j].coord)
}

/// Completing a turn of a marked slice keeps the cubies on distinct cells of
/// the grid, away from the centre.
pub proof fn lemma_after_turn_wf(s: Seq<Cubie>, axis: CubeAxis, index: u32, turns: u32)
    requires
        cubies_wf(s),
        marks_slice(s, axis, index),
        turns < 4,
    ensures
        cubies_wf(s.map_values(|c: Cubie| after_turn(c, axis, turns))),
{
    let t = s.map_values(|c: Cubie| after_turn(c, axis, turns));
    assert forall|i: int| 0 <= i < t.len() implies coord_valid(#[trigger] t[i].coord) && t[i].coord
        != center() by {
        let c = s[i].coord;
        lemma_rotated_stays_in_slice(axis, turns, c);
        lemma_rotated_fixes_center(axis, turns);
        lemma_rotated_bijective(axis, turns, c, center());
    }
    assert forall|i: int, j: int| 0 <= i < t.len() && 0 <= j < t.len() && i != j implies #[trigger] t[i].coord
        != #[trigger] t[j].coord by {
        let (a, b) = (s[i].coord, s[j].coord);
        assert(a != b);
        assert(s[i].dragged == on_slice(s[i], axis, index));
        assert(s[j].dragged == on_slice(s[j], axis, index));
        lemma_rotated_stays_in_slice(axis, turns, a);
        lemma_rotated_stays_in_slice(axis, turns, b);
        lemma_rotated_bijective(axis, turns, a, b);
    }
}

/// Identities of the marked cubies.
pub open spec fn marked(s: Seq<Cubie>) -> Set<int> {
    Set::new(|i: int| 0 <= i < s.len() && s[i].dragged)
}

/// Identities of the unmarked cubies.
pub open spec fn unmarked(s: Seq<Cubie>) -> Set<int> {
    Set::new(|i: int| 0 <= i < s.len() && !s[i].dragged)
}

/// A number for each grid cell that orders the cells slice by slice along `axis`.
pub open spec fn slice_key(c: Coord, axis: CubeAxis) -> int {
    match axis {
        CubeAxis::X => 9 * c.x + 3 * c.y + c.z,
        CubeAxis::Y => 9 * c.y + 3 * c.x + c.z,
        CubeAxis::Z => 9 * c.z + 3 * c.x + c.y,
    }
}

/// A marked slice of a well-formed puzzle holds nine cubies, or eight for a
/// middle slice, which has the hidden centre in it; the marked and the
/// unmarked cubies are disjoint and together make up all 26.
pub proof fn lemma_marked_slice_size(s: Seq<Cubie>, axis: CubeAxis, index: u32)
    requires
        cubies_wf(s),
        marks_slice(s, axis, index),
        index < 3,
    ensures
        marked(s).finite(),
        marked(s).len() == (if index == 1 { 8int } else { 9int }),
        unmarked(s).len() == 26 - marked(s).len(),
        marked(s).disjoint(unmarked(s)),
        marked(s) + unmarked(s) == set_int_range(0, 26),
{
    let ids = set_int_range(0, 26);
    let f = |j: int| slice_key(s[j].coord, axis);
    lemma_int_range(0, 26);
    lemma_int_range(0, 27);
    lemma_int_range(9 * index, 9 * index + 9);
    assert forall|a: int, b: int| ids.contains(a) && ids.contains(b) && #[trigger] f(a) == #[trigger] f(b)
        implies a == b by {
        assert(coord_valid(s[a].coord));
        assert(coord_valid(s[b].coord));
        if a != b {
            assert(s[a].coord != s[b].coord);
        }
    }
    let keys = ids.map(f);
    lemma_map_size(ids, keys, f);
    let cells = set_int_range(0, 27).remove(13);
    assert(keys.subset_of(cells)) by {
        assert forall|k: int| keys.contains(k) implies cells.contains(k) by {
            let j = choose|j: int| ids.contains(j) && f(j) == k;
            assert(coord_valid(s[j].coord) && s[j].coord != center());
        }
    }
    lemma_subset_equality(keys, cells);
    let members = marked(s);
    assert(members.subset_of(ids));
    lemma_len_subset(members, ids);
    let range = set_int_range(9 * index, 9 * index + 9);
    let target = if index == 1 { range.remove(13) } else { range };
    assert(members.map(f) =~= target) by {
        assert forall|k: int| members.map(f).contains(k) implies target.contains(k) by {
            let j = choose|j: int| members.contains(j) && f(j) == k;
            assert(coord_valid(s[j].coord) && s[j].coord != center());
            assert(s[j].dragged == on_slice(s[j], axis, index));
        }
        assert forall|k: int| target.contains(k) implies members.map(f).contains(k) by {
            assert(cells.contains(k));
            assert(keys.contains(k));
            let j = choose|j: int| ids.contains(j) && f(j) == k;
            assert(coord_valid(s[j].coord));
            assert(s[j].dragged == on_slice(s[j], axis, index));
            assert(members.contains(j));
        }
    }
    lemma_map_size(members, target, f);
    assert(members + unmarked(s) =~= ids);
    assert(members.disjoint(unmarked(s)));
    lemma_len_subset(unmarked(s), ids);
    vstd::set_lib::lemma_set_disjoint_lens(members, unmarked(s));
}

impl Puzzle {
    /// The cubies, by identity.
    pub open spec fn view(&self) -> Seq<Cubie> {
        self.cubies@
    }

    /// The cubies occupy distinct cells of the grid, none of them the centre.
    pub open spec fn wf(&self) -> bool {
        cubies_wf(self@)
    }

    /// The solved puzzle: one cubie on each cell but the hidden centre,
    /// listed with x varying slowest and z fastest, none marked.
    pub fn new() -> (r: Puzzle)
        ensures
            solved(r@),
            r.wf(),
    {
        let mut cubies: Vec<Cubie> = Vec::new();
        let mut x: u32 = 0;
        let mut y: u32 = 0;
        let mut z: u32 = 0;
        let mut k: u32 = 0;
        while k < 27
            invariant
                k <= 27,
                x <= 3,
                y < 3,
                z < 3,
                k == 9 * x + 3 * y + z,
                k < 27 ==> x < 3,
                cubies@.len() == if k > 13 { k - 1 } else { k as int },
                forall|i: int| 0 <= i < cubies@.len() ==> coord_valid(#[trigger] cubies@[i].coord)
                    && cubies@[i].coord != center() && !cubies@[i].dragged
                    && cell_key(cubies@[i].coord) < k,
                forall|i: int, j: int| 0 <= i < j < cubies@.len() ==>
                    cell_key(#[trigger] cubies@[i].coord) < cell_key(#[trigger] cubies@[j].coord),
            decreases 27 - k,
        {
            if !(x == 1 && y == 1 && z == 1) {
                cubies.push(Cubie { coord: Coord { x, y, z }, dragged: false });
            }
            k = k + 1;
            if z < 2 {
                z = z + 1;
            } else {
                z = 0;
                if y < 2 {
                    y = y + 1;
                } else {
                    y = 0;
                    x = x + 1;
                }
            }
        }
        let r = Puzzle { cubies };
        assert forall|i: int, j: int|
            0 <= i < r@.len() && 0 <= j < r@.len() && i != j implies #[trigger] r@[i].coord
            != #[trigger] r@[j].coord by {
            if i < j {
                assert(cell_key(r@[i].coord) < cell_key(r@[j].coord));
            } else {
                assert(cell_key(r@[j].coord) < cell_key(r@[i].coord));
            }
        }
        assert forall|i: int| 0 <= i < r@.len() implies !(#[trigger] r@[i]).dragged by {
            assert(coord_valid(r@[i].coord));
        }
        r
    }

    /// Marks exactly the cubies whose coordinate along `axis` equals `index`,
    /// and unmarks all others. Coordinates do not change.
    pub fn mark_slice(&mut self, axis: CubeAxis, index: u32)
        ensures
            final(self)@.len() == old(self)@.len(),
            forall|i: int| 0 <= i < old(self)@.len() ==> (#[trigger] final(self)@[i]).coord == old(self)@[i].coord,
            marks_slice(final(self)@, axis, index),
            old(self).wf() ==> final(self).wf(),
    {
        let n = self.cubies.len();
        let mut i: usize = 0;
        while i < n
            invariant
                n == old(self)@.len(),
                self@.len() == n,
                i <= n,
                forall|j: int| 0 <= j < n ==> (#[trigger] self@[j]).coord == old(self)@[j].coord,
                forall|j: int| 0 <= j < i ==> (#[trigger] self@[j]).dragged == on_slice(self@[j], axis, index),
            decreases n - i,
        {
            let c = self.cubies[i].coord;
            let on = coord_component(c, axis) == index;
            self.cubies.set(i, Cubie { coord: c, dragged: on });
            i = i + 1;
        }
        proof {
            if old(self).wf() {
                assert forall|a: int, b: int|
                    0 <= a < self@.len() && 0 <= b < self@.len() && a != b implies #[trigger] self@[a].coord
                    != #[trigger] self@[b].coord by {
                    assert(old(self)@[a].coord != old(self)@[b].coord);
                }
                assert forall|a: int| 0 <= a < self@.len() implies coord_valid(#[trigger] self@[a].coord)
                    && self@[a].coord != center() by {
                    assert(coord_valid(old(self)@[a].coord));
                }
            }
        }
    }

    /// Completes `turns` quarter turns of the marked slice about `axis`: each
    /// marked cubie moves to its cell under the permutation table and is
    /// unmarked; unmarked cubies stay where they are.
    pub fn complete_turn(&mut self, axis: CubeAxis, index: u32, turns: u32)
        requires
            old(self).wf(),
            marks_slice(old(self)@, axis, index),
            turns < 4,
        ensures
            final(self)@ == old(self)@.map_values(|c: Cubie| after_turn(c, axis, turns)),
            final(self).wf(),
            none_marked(final(self)@),
    {
        let n = self.cubies.len();
        let mut i: usize = 0;
        while i < n
            invariant
                n == old(self)@.len(),
                self@.len() == n,
                i <= n,
                cubies_wf(old(self)@),
                turns < 4,
                forall|j: int| i <= j < n ==> (#[trigger] self@[j]) == old(self)@[j],
                forall|j: int| 0 <= j < i ==> (#[trigger] self@[j]) == after_turn(old(self)@[j], axis, turns),
            decreases n - i,
        {
            let c = self.cubies[i];
            proof {
                assert(coord_valid(old(self)@[i as int].coord));
            }
            let coord = if c.dragged { rotate_coord(axis, turns, c.coord) } else { c.coord };
            self.cubies.set(i, Cubie { coord, dragged: false });
            i = i + 1;
        }
        proof {
            lemma_after_turn_wf(old(self)@, axis, index, turns);
            assert(self@ =~= old(self)@.map_values(|c: Cubie| after_turn(c, axis, turns)));
        }
    }
}

} // verus!

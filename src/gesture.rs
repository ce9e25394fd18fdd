//! The drag gesture as an explicit state machine: press, disambiguation,
//! continuous drag, and the settle that finally turns the slice.
use vstd::prelude::*;
use crate::geometry::{CubeAxis, CubeFace, candidate_axes, normal_axis, lemma_candidate_axes_distinct};
use crate::puzzle::{Cubie, Puzzle, after_turn, marks_slice, none_marked};

verus! {

/// A slice of nine cells: those whose coordinate along `axis` is `index`.
#[derive(Clone, Copy, Debug, PartialEq, Eq, Structural)]
pub struct Slice {
    pub axis: CubeAxis,
    pub index: u32,
}

/// The two slices a press on a face may turn, in candidate order.
#[derive(Clone, Copy, Debug, PartialEq, Eq, Structural)]
pub struct Pick {
    pub first: Slice,
    pub second: Slice,
}

/// Which of the two candidates of a pick a drag selected.
#[derive(Clone, Copy, Debug, PartialEq, Eq, Structural)]
pub enum Choice {
    First,
    Second,
}

/// What the pointer's displacement since the press measured this frame,
/// against the drag threshold.
#[derive(Clone, Copy, Debug, PartialEq, Eq, Structural)]
pub struct DragReading {
    /// The displacement is at least the threshold long.
    pub moved: bool,
    /// Its projection on the first candidate's direction is at least the threshold long.
    pub first_clear: bool,
    /// Its projection on the second candidate's direction is at least the threshold long.
    pub second_clear: bool,
    /// Its projection on the second direction is strictly longer than on the first.
    pub second_longer: bool,
}

/// The gesture state of the whole cube; exactly one holds at any time.
#[derive(Clone, Copy, Debug, PartialEq, Eq, Structural)]
pub enum Phase {
    /// No gesture in progress.
    Idle,
    /// The button went down on a face; the drag direction is not known yet.
    Pending(Pick),
    /// A slice follows the pointer.
    Dragging(Slice),
    /// The slice settles towards `turns` quarter turns.
    Settling(Slice, u32),
}

/// A cell index of a face hit, held on the face: a hit on the far edge of the
/// face measures index 3 and belongs to the last cell.
pub open spec fn on_face(i: u32) -> u32 {
    if i < 3 { i } else { 2 }
}

/// The pick for a hit on `face` in cell (`u`, `v`) of the face.
pub open spec fn pick_of(face: CubeFace, u: u32, v: u32) -> Pick {
    Pick {
        first: Slice { axis: candidate_axes(face).0, index: u },
        second: Slice { axis: candidate_axes(face).1, index: v },
    }
}

/// The candidate that a reading selects, if the drag is decided.
pub open spec fn choice_of(r: DragReading) -> Option<Choice> {
    if !r.moved || (!r.first_clear && !r.second_clear) {
        None
    } else if r.second_longer {
        Some(Choice::Second)
    } else {
        Some(Choice::First)
    }
}

/// The slice of the candidate `c` of `p`.
pub open spec fn chosen(p: Pick, c: Choice) -> Slice {
    match c {
        Choice::First => p.first,
        Choice::Second => p.second,
    }
}

/// The number of quarter turns, in 0..4, that a drag settles to when its angle
/// rounds to `quarters` quarter turns.
pub open spec fn turns_of(quarters: i64) -> u32 {
    (quarters as int % 4) as u32
}

/// The slice's index lies on the grid.
pub open spec fn slice_ok(s: Slice) -> bool {
    s.index < 3
}

/// Every pick offers two slices about different axes, neither of them the
/// axis of the picked face's normal.
pub proof fn lemma_pick_axes_distinct(face: CubeFace, u: u32, v: u32)
    ensures
        pick_of(face, u, v).first.axis != pick_of(face, u, v).second.axis,
        pick_of(face, u, v).first.axis != normal_axis(face),
        pick_of(face, u, v).second.axis != normal_axis(face),
{
    lemma_candidate_axes_distinct(face);
}

/// The pick of a hit in cell (`u`, `v`) of `face`, each index held to the
/// face's last cell.
pub fn pick_cells(face: CubeFace, u: u32, v: u32) -> (r: Pick)
    ensures
        r == pick_of(face, on_face(u), on_face(v)),
{
    let u = if u < 3 { u } else { 2 };
    let v = if v < 3 { v } else { 2 };
    let (a0, a1) = face.candidate_axes();
    Pick { first: Slice { axis: a0, index: u }, second: Slice { axis: a1, index: v } }
}

/// Decides which candidate a drag selects: none while the pointer has not
/// moved far enough along either direction, else the one with the strictly
/// longer projection, the first on a tie.
pub fn classify(r: DragReading) -> (c: Option<Choice>)
    ensures
        c == choice_of(r),
{
    if !r.moved || (!r.first_clear && !r.second_clear) {
        None
    } else if r.second_longer {
        Some(Choice::Second)
    } else {
        Some(Choice::First)
    }
}

/// The quarter turns, in 0..4, that a released drag settles to, from the
/// rounded number of quarter turns its angle covers (which may be negative).
pub fn target_turns(quarters: i64) -> (r: u32)
    ensures
        r == turns_of(quarters),
        r < 4,
        (r as int - quarters) % 4 == 0,
{
    let m = quarters % 4;
    if m < 0 {
        (m + 4) as u32
    } else {
        m as u32
    }
}

/// How the cubies' marks stand in each phase: nothing is marked before a
/// slice is chosen, and afterwards exactly the chosen slice is.
pub open spec fn phase_matches(phase: Phase, s: Seq<Cubie>) -> bool {
    match phase {
        Phase::Idle => none_marked(s),
        Phase::Pending(p) => none_marked(s) && slice_ok(p.first) && slice_ok(p.second)
            && p.first.axis != p.second.axis,
        Phase::Dragging(sl) => slice_ok(sl) && marks_slice(s, sl.axis, sl.index),
        Phase::Settling(sl, t) => slice_ok(sl) && t < 4 && marks_slice(s, sl.axis, sl.index),
    }
}

/// The cubies have the same coordinates in both sequences.
pub open spec fn same_cells(a: Seq<Cubie>, b: Seq<Cubie>) -> bool {
    a.len() == b.len() && forall|i: int| 0 <= i < a.len() ==> (#[trigger] a[i]).coord == b[i].coord
}

/// The puzzle together with the gesture that is acting on it.
pub struct Session {
    pub puzzle: Puzzle,
    pub phase: Phase,
}

impl Session {
    /// The puzzle is well formed and its marks agree with the phase.
    pub open spec fn wf(&self) -> bool {
        self.puzzle.wf() && phase_matches(self.phase, self.puzzle@)
    }

    /// A solved puzzle with no gesture in progress.
    pub fn new() -> (r: Session)
        ensures
            r.wf(),
            r.phase == Phase::Idle,
            crate::puzzle::solved(r.puzzle@),
    {
        Session { puzzle: Puzzle::new(), phase: Phase::Idle }
    }

    /// The button went down over cell (`u`, `v`) of `face`. When no gesture is
    /// in progress, the gesture becomes pending with that pick (an index past
    /// the face counts as its last cell); otherwise nothing changes. Returns
    /// whether it started.
    pub fn press(&mut self, face: CubeFace, u: u32, v: u32) -> (started: bool)
        requires
            old(self).wf(),
        ensures
            final(self).wf(),
            final(self).puzzle@ == old(self).puzzle@,
            started == (old(self).phase == Phase::Idle),
            started ==> final(self).phase == Phase::Pending(pick_of(face, on_face(u), on_face(v))),
            !started ==> final(self).phase == old(self).phase,
    {
        match self.phase {
            Phase::Idle => {
                self.phase = Phase::Pending(pick_cells(face, u, v));
                true
            },
            _ => false,
        }
    }

    /// One frame of a pending gesture. `held` tells whether the button is
    /// still down, `reading` what the pointer measured, or `None` when the
    /// pointer left the window. Releasing or losing the pointer cancels the
    /// gesture and leaves every cubie as it was; a decided reading marks the
    /// chosen slice and starts dragging it; otherwise the gesture waits.
    /// Returns the candidate chosen, if any.
    pub fn pending_update(&mut self, held: bool, reading: Option<DragReading>) -> (r: Option<Choice>)
        requires
            old(self).wf(),
        ensures
            final(self).wf(),
            same_cells(final(self).puzzle@, old(self).puzzle@),
            match old(self).phase {
                Phase::Pending(p) => if !held || reading.is_none() {
                    &&& r.is_none()
                    &&& final(self).phase == Phase::Idle
                    &&& final(self).puzzle@ == old(self).puzzle@
                } else {
                    match choice_of(reading.unwrap()) {
                        None => r.is_none() && final(self).phase == old(self).phase
                            && final(self).puzzle@ == old(self).puzzle@,
                        Some(c) => {
                            &&& r == Some(c)
                            &&& final(self).phase == Phase::Dragging(chosen(p, c))
                            &&& marks_slice(final(self).puzzle@, chosen(p, c).axis, chosen(p, c).index)
                        },
                    }
                },
                _ => r.is_none() && final(self).phase == old(self).phase
                    && final(self).puzzle@ == old(self).puzzle@,
            },
    {
        let p = match self.phase {
            Phase::Pending(p) => p,
            _ => return None,
        };
        let reading = match reading {
            Some(rd) => rd,
            None => {
                self.phase = Phase::Idle;
                return None;
            },
        };
        if !held {
            self.phase = Phase::Idle;
            return None;
        }
        match classify(reading) {
            None => None,
            Some(c) => {
                let sl = match c {
                    Choice::First => p.first,
                    Choice::Second => p.second,
                };
                self.puzzle.mark_slice(sl.axis, sl.index);
                self.phase = Phase::Dragging(sl);
                Some(c)
            },
        }
    }

    /// The button went up while dragging: the gesture settles towards
    /// `target_turns(quarters)` quarter turns, where `quarters` is the drag
    /// angle rounded to whole quarter turns. In any other phase nothing changes.
    pub fn release(&mut self, quarters: i64)
        requires
            old(self).wf(),
        ensures
            final(self).wf(),
            final(self).puzzle@ == old(self).puzzle@,
            match old(self).phase {
                Phase::Dragging(sl) => final(self).phase == Phase::Settling(sl, turns_of(quarters)),
                _ => final(self).phase == old(self).phase,
            },
    {
        match self.phase {
            Phase::Dragging(sl) => {
                let t = target_turns(quarters);
                self.phase = Phase::Settling(sl, t);
            },
            _ => {},
        }
    }

    /// The settle animation arrived: every cubie of the turning slice moves to
    /// its cell under the permutation table and is unmarked, and the gesture
    /// ends. In any other phase nothing changes.
    pub fn finish(&mut self)
        requires
            old(self).wf(),
        ensures
            final(self).wf(),
            match old(self).phase {
                Phase::Settling(sl, t) => {
                    &&& final(self).phase == Phase::Idle
                    &&& final(self).puzzle@ == old(self).puzzle@.map_values(
                        |c: Cubie| after_turn(c, sl.axis, t),
                    )
                },
                _ => final(self).phase == old(self).phase && final(self).puzzle@ == old(self).puzzle@,
            },
    {
        match self.phase {
            Phase::Settling(sl, t) => {
                self.puzzle.complete_turn(sl.axis, sl.index, t);
                self.phase = Phase::Idle;
            },
            _ => {},
        }
    }
}

} // verus!

//! Per-frame target selection: the validity filter, the change to the robot's
//! axes, the planar distance and the choice of the closest marker.

use vstd::prelude::*;
use vstd::math::{max, min};
use crate::fixed::{floor_sqrt, isqrt};

verus! {

/// One corner of a detected marker, in pixels.
#[derive(Clone, Copy, Debug, PartialEq, Eq)]
pub struct Corner {
    pub x: i64,
    pub y: i64,
}

/// Estimated pose of a marker in the camera's axes: the translation
/// `(x, y, z)` and the rotation matrix, row by row.
#[derive(Clone, Copy, Debug, PartialEq, Eq)]
pub struct Pose {
    pub translation: [i64; 3],
    pub rotation: [i64; 9],
}

/// One marker found in one frame.
#[derive(Clone, Copy, Debug, PartialEq, Eq)]
pub struct Candidate {
    pub id: usize,
    pub corners: [Corner; 4],
    pub decision_margin: i64,
    pub pose: Option<Pose>,
}

/// Axis-aligned box round the four corners of a marker.
#[derive(Clone, Copy, Debug, PartialEq, Eq)]
pub struct BoundingBox {
    pub lx: i64,
    pub hx: i64,
    pub ly: i64,
    pub hy: i64,
}

/// The marker chosen in a frame, in the robot's axes.
#[derive(Clone, Copy, Debug, PartialEq, Eq)]
pub struct CustomPose {
    /// Planar distance: the length of (forward, lateral), rounded down.
    pub distance: u64,
    pub id: usize,
    /// Forward, lateral and vertical displacement.
    pub translation_matrix: [i64; 3],
    /// Last entry of the rotation matrix.
    pub rotation_matrix: i64,
}

fn lesser(a: i64, b: i64) -> (r: i64)
    ensures
        r == min(a as int, b as int),
{
    if a < b {
        a
    } else {
        b
    }
}

fn greater(a: i64, b: i64) -> (r: i64)
    ensures
        r == max(a as int, b as int),
{
    if a > b {
        a
    } else {
        b
    }
}

fn magnitude(x: i64) -> (r: u128)
    ensures
        r == (if x >= 0 { x as int } else { -(x as int) }),
{
    if x >= 0 {
        x as u128
    } else {
        let wide: i128 = x as i128;
        (-wide) as u128
    }
}

impl BoundingBox {
    /// The box round `corners`: the least and the greatest coordinate on
    /// each axis.
    pub open spec fn spec_of(corners: [Corner; 4]) -> BoundingBox {
        BoundingBox {
            lx: min(
                min(corners[0].x as int, corners[1].x as int),
                min(corners[2].x as int, corners[3].x as int),
            ) as i64,
            hx: max(
                max(corners[0].x as int, corners[1].x as int),
                max(corners[2].x as int, corners[3].x as int),
            ) as i64,
            ly: min(
                min(corners[0].y as int, corners[1].y as int),
                min(corners[2].y as int, corners[3].y as int),
            ) as i64,
            hy: max(
                max(corners[0].y as int, corners[1].y as int),
                max(corners[2].y as int, corners[3].y as int),
            ) as i64,
        }
    }

    /// A box without area: its width or its height is not positive.
    pub open spec fn spec_is_degenerate(&self) -> bool {
        self.hx <= self.lx || self.hy <= self.ly
    }

    /// Computes the box round `corners`.
    pub fn of(corners: &[Corner; 4]) -> (b: BoundingBox)
        ensures
            b == Self::spec_of(*corners),
    {
        BoundingBox {
            lx: lesser(lesser(corners[0].x, corners[1].x), lesser(corners[2].x, corners[3].x)),
            hx: greater(greater(corners[0].x, corners[1].x), greater(corners[2].x, corners[3].x)),
            ly: lesser(lesser(corners[0].y, corners[1].y), lesser(corners[2].y, corners[3].y)),
            hy: greater(greater(corners[0].y, corners[1].y), greater(corners[2].y, corners[3].y)),
        }
    }

    /// Whether the box is without area.
    #[verifier::when_used_as_spec(spec_is_degenerate)]
    pub fn is_degenerate(&self) -> (r: bool)
        ensures
            r == self.spec_is_degenerate(),
    {
        self.hx <= self.lx || self.hy <= self.ly
    }
}

/// Length of the vector (forward, lateral), rounded down to a whole step.
pub open spec fn planar_distance(forward: int, lateral: int) -> int {
    floor_sqrt(forward * forward + lateral * lateral)
}

/// The planar distance orders positions as their true distance from the
/// camera does: a position that is no farther has no greater planar distance.
pub proof fn lemma_planar_distance_keeps_order(f1: int, l1: int, f2: int, l2: int)
    requires
        f1 * f1 + l1 * l1 <= f2 * f2 + l2 * l2,
    ensures
        planar_distance(f1, l1) <= planar_distance(f2, l2),
{
    assert(0 <= f1 * f1 && 0 <= l1 * l1) by (nonlinear_arith);
    crate::fixed::lemma_floor_sqrt_monotonic(f1 * f1 + l1 * l1, f2 * f2 + l2 * l2);
}

/// Computes the planar distance.
pub fn planar_distance_of(forward: i64, lateral: i64) -> (d: u64)
    ensures
        d == planar_distance(forward as int, lateral as int),
{
    let f: u128 = magnitude(forward);
    let l: u128 = magnitude(lateral);
    assert(f * f == forward * forward && f * f <= 0x8000_0000_0000_0000 * 0x8000_0000_0000_0000)
        by (nonlinear_arith)
        requires
            f == forward || f == -forward,
            0 <= f <= 0x8000_0000_0000_0000,
    ;
    assert(l * l == lateral * lateral && l * l <= 0x8000_0000_0000_0000 * 0x8000_0000_0000_0000)
        by (nonlinear_arith)
        requires
            l == lateral || l == -lateral,
            0 <= l <= 0x8000_0000_0000_0000,
    ;
    isqrt(f * f + l * l)
}

impl Candidate {
    /// The filter on candidates: a pose was estimated, the box round the
    /// corners has area, and the decision margin reaches `min_margin`.
    pub open spec fn spec_is_valid(self, min_margin: i64) -> bool {
        &&& self.pose is Some
        &&& !BoundingBox::spec_of(self.corners).spec_is_degenerate()
        &&& self.decision_margin >= min_margin
    }

    /// What a candidate with a pose becomes in the robot's axes: the
    /// camera's z is forward, its x lateral, its y vertical.
    pub open spec fn spec_target(self) -> CustomPose {
        let pose = self.pose->0;
        CustomPose {
            distance: planar_distance(pose.translation[2] as int, pose.translation[0] as int) as u64,
            id: self.id,
            translation_matrix: [pose.translation[2], pose.translation[0], pose.translation[1]],
            rotation_matrix: pose.rotation[8],
        }
    }

    /// The candidate as a target, if it passes the filter.
    pub open spec fn spec_evaluate(self, min_margin: i64) -> Option<CustomPose> {
        if self.spec_is_valid(min_margin) {
            Some(self.spec_target())
        } else {
            None
        }
    }

    /// Applies the filter and, where the candidate passes, turns it into a
    /// target.
    pub fn evaluate(&self, min_margin: i64) -> (r: Option<CustomPose>)
        ensures
            r == self.spec_evaluate(min_margin),
    {
        match self.pose {
            None => None,
            Some(pose) => {
                let bounds = BoundingBox::of(&self.corners);
                if bounds.is_degenerate() || self.decision_margin < min_margin {
                    None
                } else {
                    let forward: i64 = pose.translation[2];
                    let lateral: i64 = pose.translation[0];
                    let vertical: i64 = pose.translation[1];
                    Some(
                        CustomPose {
                            distance: planar_distance_of(forward, lateral),
                            id: self.id,
                            translation_matrix: [forward, lateral, vertical],
                            rotation_matrix: pose.rotation[8],
                        },
                    )
                }
            },
        }
    }
}

/// Among the first `n` candidates, `i` is the one to report: it passes the
/// filter, none that passes is closer, and of those at its distance it
/// comes first.
pub open spec fn is_selected_within(
    candidates: Seq<Candidate>,
    min_margin: i64,
    n: int,
    i: int,
) -> bool {
    &&& 0 <= i < n <= candidates.len()
    &&& candidates[i].spec_is_valid(min_margin)
    &&& forall|j: int|
        0 <= j < n && (#[trigger] candidates[j]).spec_is_valid(min_margin)
            ==> candidates[i].spec_target().distance <= candidates[j].spec_target().distance
    &&& forall|j: int|
        0 <= j < i && (#[trigger] candidates[j]).spec_is_valid(min_margin)
            ==> candidates[i].spec_target().distance < candidates[j].spec_target().distance
}

/// `i` is the candidate to report for the whole frame.
pub open spec fn is_selected(candidates: Seq<Candidate>, min_margin: i64, i: int) -> bool {
    is_selected_within(candidates, min_margin, candidates.len() as int, i)
}

/// Some candidate of the frame passes the filter.
pub open spec fn has_valid(candidates: Seq<Candidate>, min_margin: i64) -> bool {
    exists|j: int|
        0 <= j < candidates.len() && (#[trigger] candidates[j]).spec_is_valid(min_margin)
}

/// The target of a frame: the closest candidate that passes the filter, the
/// first of them where several are equally close; none where no candidate
/// passes.
pub open spec fn spec_select_target(candidates: Seq<Candidate>, min_margin: i64) -> Option<
    CustomPose,
> {
    if has_valid(candidates, min_margin) {
        let i = choose|i: int| is_selected(candidates, min_margin, i);
        Some(candidates[i].spec_target())
    } else {
        None
    }
}

/// At most one candidate of a frame is the one to report.
pub proof fn lemma_selected_unique(candidates: Seq<Candidate>, min_margin: i64, a: int, b: int)
    requires
        is_selected(candidates, min_margin, a),
        is_selected(candidates, min_margin, b),
    ensures
        a == b,
{
    if a < b {
        assert(candidates[a].spec_is_valid(min_margin));
    } else if b < a {
        assert(candidates[b].spec_is_valid(min_margin));
    }
}

/// Where some candidate passes the filter, one of them is the one to report.
pub proof fn lemma_selected_exists(candidates: Seq<Candidate>, min_margin: i64, n: int) -> (i: int)
    requires
        0 <= n <= candidates.len(),
        exists|j: int| 0 <= j < n && (#[trigger] candidates[j]).spec_is_valid(min_margin),
    ensures
        is_selected_within(candidates, min_margin, n, i),
    decreases n,
{
    let last = n - 1;
    if exists|j: int| 0 <= j < last && (#[trigger] candidates[j]).spec_is_valid(min_margin) {
        let held = lemma_selected_exists(candidates, min_margin, last);
        if candidates[last].spec_is_valid(min_margin) && candidates[last].spec_target().distance
            < candidates[held].spec_target().distance {
            last
        } else {
            held
        }
    } else {
        assert(candidates[last].spec_is_valid(min_margin));
        last
    }
}

/// The reported target is the closest candidate that passed the filter: no
/// candidate that passes has a smaller planar distance, and the target is
/// one of those that pass.
pub proof fn lemma_target_is_closest_valid(candidates: Seq<Candidate>, min_margin: i64, j: int)
    requires
        0 <= j < candidates.len(),
        candidates[j].spec_is_valid(min_margin),
    ensures
        spec_select_target(candidates, min_margin) matches Some(target) && target.distance
            <= candidates[j].spec_target().distance && exists|i: int|
            0 <= i < candidates.len() && (#[trigger] candidates[i]).spec_is_valid(min_margin)
                && target == candidates[i].spec_target(),
{
    let w = lemma_selected_exists(candidates, min_margin, candidates.len() as int);
    assert(is_selected(candidates, min_margin, w));
    let i = choose|i: int| is_selected(candidates, min_margin, i);
    assert(candidates[i].spec_is_valid(min_margin));
}

/// Of two candidates that pass the filter at the same distance, the later
/// one is never the one reported.
pub proof fn lemma_ties_go_to_the_first(
    candidates: Seq<Candidate>,
    min_margin: i64,
    first: int,
    later: int,
)
    requires
        0 <= first < later < candidates.len(),
        candidates[first].spec_is_valid(min_margin),
        candidates[later].spec_is_valid(min_margin),
        candidates[first].spec_target().distance == candidates[later].spec_target().distance,
    ensures
        !is_selected(candidates, min_margin, later),
{
}

/// No target is reported exactly when no candidate passes the filter: an
/// empty frame, or one whose candidates all fail.
pub proof fn lemma_no_target_iff_none_valid(candidates: Seq<Candidate>, min_margin: i64)
    ensures
        spec_select_target(candidates, min_margin) is None <==> forall|j: int|
            0 <= j < candidates.len() ==> !(#[trigger] candidates[j]).spec_is_valid(min_margin),
        candidates.len() == 0 ==> spec_select_target(candidates, min_margin) is None,
{
}

/// A candidate whose box has no width or no height is rejected, whatever
/// its decision margin and whatever the threshold.
pub proof fn lemma_degenerate_box_rejected(candidate: Candidate, min_margin: i64)
    requires
        BoundingBox::spec_of(candidate.corners).spec_is_degenerate(),
    ensures
        !candidate.spec_is_valid(min_margin),
        candidate.spec_evaluate(min_margin) is None,
{
}

/// A frame whose candidates all have boxes without area has no target.
pub proof fn lemma_degenerate_frame_has_no_target(candidates: Seq<Candidate>, min_margin: i64)
    requires
        forall|j: int|
            0 <= j < candidates.len() ==> BoundingBox::spec_of(
                (#[trigger] candidates[j]).corners,
            ).spec_is_degenerate(),
    ensures
        spec_select_target(candidates, min_margin) is None,
{
}

/// Picks the target of a frame.
pub fn select_target(candidates: &Vec<Candidate>, min_margin: i64) -> (r: Option<CustomPose>)
    ensures
        r == spec_select_target(candidates@, min_margin),
        r is Some <==> has_valid(candidates@, min_margin),
        r matches Some(p) ==> exists|i: int|
            is_selected(candidates@, min_margin, i) && p == (#[trigger] candidates@[i]).spec_target(),
{
    let mut best: Option<CustomPose> = None;
    let ghost mut at: int = 0;
    let mut n: usize = 0;
    while n < candidates.len()
        invariant
            n <= candidates.len(),
            best is None ==> forall|j: int|
                0 <= j < n ==> !(#[trigger] candidates@[j]).spec_is_valid(min_margin),
            best matches Some(p) ==> is_selected_within(candidates@, min_margin, n as int, at)
                && p == candidates@[at].spec_target(),
        decreases candidates.len() - n,
    {
        match candidates[n].evaluate(min_margin) {
            None => {},
            Some(pose) => {
                let closer: bool = match best {
                    None => true,
                    Some(held) => pose.distance < held.distance,
                };
                if closer {
                    best = Some(pose);
                    proof {
                        at = n as int;
                    }
                }
            },
        }
        n = n + 1;
    }
    proof {
        if best is Some {
            assert(is_selected(candidates@, min_margin, at));
            let i = choose|i: int| is_selected(candidates@, min_margin, i);
            lemma_selected_unique(candidates@, min_margin, i, at);
        }
    }
    best
}

} // verus!

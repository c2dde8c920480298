//! What the detector reports of a marker, as doubles in their bit patterns,
//! and how a report becomes a candidate in fixed-point numbers.

use vstd::prelude::*;
use crate::ieee::{micro_from_bits, spec_micro_from_bits};
use crate::selection::{Candidate, Corner, Pose};

verus! {

/// Pose of a marker as the detector estimated it.
#[derive(Clone, Copy, Debug, PartialEq, Eq)]
pub struct RawPose {
    /// Translation `(x, y, z)` in metres.
    pub translation: [u64; 3],
    /// Rotation matrix, row by row.
    pub rotation: [u64; 9],
}

/// A marker as the detector reported it.
#[derive(Clone, Copy, Debug, PartialEq, Eq)]
pub struct RawCandidate {
    pub id: usize,
    /// The four corners, each `(x, y)` in pixels.
    pub corners: [[u64; 2]; 4],
    pub decision_margin: u64,
    pub pose: Option<RawPose>,
}

/// Every double of `bits` reads as a fixed-point number.
pub open spec fn all_readable(bits: Seq<u64>) -> bool {
    forall|i: int| 0 <= i < bits.len() ==> spec_micro_from_bits(#[trigger] bits[i]) is Some
}

/// The double as a fixed-point number, where it reads.
pub open spec fn number(bits: u64) -> i64 {
    spec_micro_from_bits(bits)->0
}

/// Three doubles as fixed-point numbers; none where one does not read.
pub open spec fn spec_read_three(bits: [u64; 3]) -> Option<[i64; 3]> {
    if all_readable(bits@) {
        Some([number(bits[0]), number(bits[1]), number(bits[2])])
    } else {
        None
    }
}

/// Nine doubles as fixed-point numbers; none where one does not read.
pub open spec fn spec_read_nine(bits: [u64; 9]) -> Option<[i64; 9]> {
    if all_readable(bits@) {
        Some(
            [
                number(bits[0]),
                number(bits[1]),
                number(bits[2]),
                number(bits[3]),
                number(bits[4]),
                number(bits[5]),
                number(bits[6]),
                number(bits[7]),
                number(bits[8]),
            ],
        )
    } else {
        None
    }
}

/// A corner in fixed-point numbers; none where a coordinate does not read.
pub open spec fn spec_read_corner(bits: [u64; 2]) -> Option<Corner> {
    if all_readable(bits@) {
        Some(Corner { x: number(bits[0]), y: number(bits[1]) })
    } else {
        None
    }
}

fn read_three(bits: &[u64; 3]) -> (r: Option<[i64; 3]>)
    ensures
        r == spec_read_three(*bits),
{
    let a: i64 = micro_from_bits(bits[0])?;
    let b: i64 = micro_from_bits(bits[1])?;
    let c: i64 = micro_from_bits(bits[2])?;
    Some([a, b, c])
}

fn read_nine(bits: &[u64; 9]) -> (r: Option<[i64; 9]>)
    ensures
        r == spec_read_nine(*bits),
{
    let a: i64 = micro_from_bits(bits[0])?;
    let b: i64 = micro_from_bits(bits[1])?;
    let c: i64 = micro_from_bits(bits[2])?;
    let d: i64 = micro_from_bits(bits[3])?;
    let e: i64 = micro_from_bits(bits[4])?;
    let f: i64 = micro_from_bits(bits[5])?;
    let g: i64 = micro_from_bits(bits[6])?;
    let h: i64 = micro_from_bits(bits[7])?;
    let i: i64 = micro_from_bits(bits[8])?;
    Some([a, b, c, d, e, f, g, h, i])
}

fn read_corner(bits: &[u64; 2]) -> (r: Option<Corner>)
    ensures
        r == spec_read_corner(*bits),
{
    let x: i64 = micro_from_bits(bits[0])?;
    let y: i64 = micro_from_bits(bits[1])?;
    Some(Corner { x, y })
}

impl RawPose {
    /// The pose in fixed-point numbers; none where one of its twelve
    /// doubles does not read.
    pub open spec fn spec_read(self) -> Option<Pose> {
        match (spec_read_three(self.translation), spec_read_nine(self.rotation)) {
            (Some(translation), Some(rotation)) => Some(Pose { translation, rotation }),
            _ => None,
        }
    }

    /// Reads the pose.
    pub fn read(&self) -> (pose: Option<Pose>)
        ensures
            pose == self.spec_read(),
    {
        let translation: [i64; 3] = read_three(&self.translation)?;
        let rotation: [i64; 9] = read_nine(&self.rotation)?;
        Some(Pose { translation, rotation })
    }
}

impl RawCandidate {
    /// The pose of the report in fixed-point numbers. A pose that does not
    /// read counts as none.
    pub open spec fn spec_pose(self) -> Option<Pose> {
        match self.pose {
            None => None,
            Some(raw) => raw.spec_read(),
        }
    }

    /// The report in fixed-point numbers: same id, corners, margin and pose
    /// read one by one. None where a corner or the margin does not read: is
    /// not a number or is out of range.
    pub open spec fn spec_read(self) -> Option<Candidate> {
        match (
            spec_read_corner(self.corners[0]),
            spec_read_corner(self.corners[1]),
            spec_read_corner(self.corners[2]),
            spec_read_corner(self.corners[3]),
            spec_micro_from_bits(self.decision_margin),
        ) {
            (Some(a), Some(b), Some(c), Some(d), Some(decision_margin)) => Some(
                Candidate { id: self.id, corners: [a, b, c, d], decision_margin, pose: self.spec_pose() },
            ),
            _ => None,
        }
    }

    /// Reads the report.
    pub fn read(&self) -> (r: Option<Candidate>)
        ensures
            r == self.spec_read(),
    {
        let a: Corner = read_corner(&self.corners[0])?;
        let b: Corner = read_corner(&self.corners[1])?;
        let c: Corner = read_corner(&self.corners[2])?;
        let d: Corner = read_corner(&self.corners[3])?;
        let decision_margin: i64 = micro_from_bits(self.decision_margin)?;
        let pose: Option<Pose> = match &self.pose {
            None => None,
            Some(raw) => raw.read(),
        };
        Some(Candidate { id: self.id, corners: [a, b, c, d], decision_margin, pose })
    }
}

/// A report whose corners all have one and the same x, or one and the same
/// y, reads as a candidate that the filter rejects, whatever its decision
/// margin and whatever the threshold.
pub proof fn lemma_flat_report_is_rejected(report: RawCandidate, min_margin: i64)
    requires
        report.spec_read() is Some,
        ({
            &&& number(report.corners[0][0]) == number(report.corners[1][0])
            &&& number(report.corners[1][0]) == number(report.corners[2][0])
            &&& number(report.corners[2][0]) == number(report.corners[3][0])
        }) || ({
            &&& number(report.corners[0][1]) == number(report.corners[1][1])
            &&& number(report.corners[1][1]) == number(report.corners[2][1])
            &&& number(report.corners[2][1]) == number(report.corners[3][1])
        }),
    ensures
        !report.spec_read()->0.spec_is_valid(min_margin),
{
}

/// The candidates of a frame: its reports read one by one, in their order,
/// without those that do not read.
pub open spec fn spec_read_candidates(reports: Seq<RawCandidate>) -> Seq<Candidate> {
    reports.filter_map(|report: RawCandidate| report.spec_read())
}

/// Reads the reports of a frame.
pub fn read_candidates(reports: &Vec<RawCandidate>) -> (candidates: Vec<Candidate>)
    ensures
        candidates@ == spec_read_candidates(reports@),
{
    let mut candidates: Vec<Candidate> = Vec::new();
    let mut i: usize = 0;
    while i < reports.len()
        invariant
            i <= reports.len(),
            candidates@ == spec_read_candidates(reports@.take(i as int)),
        decreases reports.len() - i,
    {
        proof {
            reports@.lemma_filter_map_take_succ(|report: RawCandidate| report.spec_read(), i as int);
        }
        match reports[i].read() {
            Some(candidate) => {
                candidates.push(candidate);
            },
            None => {},
        }
        i = i + 1;
    }
    assert(reports@.take(reports@.len() as int) =~= reports@);
    candidates
}

} // verus!

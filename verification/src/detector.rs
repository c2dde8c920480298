//! How the marker detector of a run is set up.

use vstd::prelude::*;
use crate::parameters::{AprilTagFamily, DetectorParameters, ParametersView};

verus! {

/// Worker threads of the detector.
pub const DETECTOR_THREADS: u8 = 8;

/// Bit errors that the detector corrects when it decodes a marker.
pub const BITS_CORRECTED: usize = 1;

/// Thresholds on the quads that the detector takes for candidates.
/// Angles count in millionths of a degree, the error in millionths.
#[derive(Clone, Copy, Debug, PartialEq, Eq, Structural)]
pub struct QuadThresholds {
    /// Least number of pixels in a cluster.
    pub min_cluster_pixels: u32,
    /// Most corner candidates looked at per cluster.
    pub max_maxima_number: u32,
    /// Least angle between neighbouring edges; zero accepts every quad.
    pub min_angle: i64,
    /// Least angle between opposite edges.
    pub min_opposite_angle: i64,
    /// Greatest mean squared error of a line fitted to an edge.
    pub max_mse: i64,
    /// Least difference in intensity between white and black.
    pub min_white_black_diff: u8,
    /// Whether noisy images are deglitched.
    pub deglitch: bool,
}

/// Everything the detector is built from.
#[derive(Debug)]
pub struct DetectorSettings {
    /// The families to register, each with `BITS_CORRECTED`.
    pub families: Vec<AprilTagFamily>,
    pub thread_number: u8,
    pub decimation: i64,
    pub sharpening: i64,
    pub refine_edges: bool,
    /// Gaussian blur before quads are looked for, in millionths of a pixel.
    pub sigma: i64,
    pub thresholds: QuadThresholds,
}

impl QuadThresholds {
    /// The thresholds of every run.
    pub open spec fn spec_fixed() -> QuadThresholds {
        QuadThresholds {
            min_cluster_pixels: 5,
            max_maxima_number: 10,
            min_angle: 0,
            min_opposite_angle: 360_000_000,
            max_mse: 10_000_000,
            min_white_black_diff: 5,
            deglitch: false,
        }
    }

    /// The thresholds of every run.
    pub fn fixed() -> (thresholds: QuadThresholds)
        ensures
            thresholds == Self::spec_fixed(),
    {
        QuadThresholds {
            min_cluster_pixels: 5,
            max_maxima_number: 10,
            min_angle: 0,
            min_opposite_angle: 360_000_000,
            max_mse: 10_000_000,
            min_white_black_diff: 5,
            deglitch: false,
        }
    }
}

impl DetectorSettings {
    /// The detector of a run registers the configured families and takes
    /// decimation and sharpening from the configuration; the rest is the
    /// same in every run: eight threads, no edge refinement, no blur, and
    /// the fixed thresholds.
    pub open spec fn matches_parameters(self, parameters: ParametersView) -> bool {
        &&& self.families@ == parameters.families
        &&& self.thread_number == DETECTOR_THREADS
        &&& self.decimation == parameters.decimation
        &&& self.sharpening == parameters.sharpening
        &&& !self.refine_edges
        &&& self.sigma == 0
        &&& self.thresholds == QuadThresholds::spec_fixed()
    }

    /// The settings for a detector that serves `parameters`. They name at
    /// least one family.
    pub fn for_parameters(parameters: &DetectorParameters) -> (settings: DetectorSettings)
        ensures
            settings.matches_parameters(parameters@),
            settings.families@.len() > 0,
    {
        let configured = parameters.families();
        let mut families: Vec<AprilTagFamily> = Vec::new();
        let mut i: usize = 0;
        while i < configured.len()
            invariant
                i <= configured.len(),
                families@ == configured@.take(i as int),
            decreases configured.len() - i,
        {
            families.push(configured[i]);
            assert(configured@.take(i + 1) =~= configured@.take(i as int).push(configured@[i as int]));
            i = i + 1;
        }
        assert(configured@.take(configured.len() as int) =~= configured@);
        DetectorSettings {
            families,
            thread_number: DETECTOR_THREADS,
            decimation: parameters.decimation(),
            sharpening: parameters.sharpening(),
            refine_edges: false,
            sigma: 0,
            thresholds: QuadThresholds::fixed(),
        }
    }
}

} // verus!

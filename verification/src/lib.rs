//! Frame pipeline of a fiducial-marker vision system: per-frame target
//! selection, the telemetry topic schema, the calibration and parameter data
//! models, and the queue discipline of the stages.
//!
//! The library holds no floating-point number. Real quantities that it
//! decides on (pixel corners, decision margins, translations, detector
//! tunables) are signed fixed-point numbers with six decimal places:
//! `1_500_000` stands for 1.5. Real quantities that come from outside (the
//! calibration, the detector's reports, the parameter file) are doubles in
//! their bit patterns; `ieee` reads such a pattern as a fixed-point number
//! and writes a fixed-point number as one.
//!
//! - `selection`: the filter on candidates and the choice of the closest.
//! - `detection`: the detector's reports, read into candidates.
//! - `process`: the detection stage, frame by frame, and its queues.
//! - `networktable`: the message of a frame, its topics, and the publisher's
//!   rules.
//! - `calibration`, `parameters`, `detector`: what a run is configured with.
//! - `frame`: frames as plain buffers, and the colour mask.
//! - `fixed`, `ieee`, `text`: numbers.

pub mod calibration;
pub mod detection;
pub mod detector;
pub mod fixed;
pub mod frame;
pub mod ieee;
pub mod networktable;
pub mod parameters;
pub mod process;
pub mod selection;
pub mod text;

pub use crate::calibration::{CalibrationError, CalibrationResult, CameraCalibration};
pub use crate::parameters::{AprilTagFamily, DetectorParameters};
pub use image::{DynamicImage, RgbImage, RgbaImage};

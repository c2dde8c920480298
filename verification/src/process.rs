//! The detection stage: one frame's candidates in, one message out, and
//! what a stage does when a queue next to it is full or gone.

use vstd::prelude::*;
use vstd::string::StringExecFns;
use crossbeam_channel::{Receiver, RecvError, SendError, Sender, TrySendError};
use image::DynamicImage;
use crate::calibration::{CalibrationError, CalibrationView, CameraCalibration};
use crate::detection::{read_candidates, spec_read_candidates, RawCandidate};
use crate::frame::Frame;
use crate::networktable::VisionMessage;
use crate::parameters::{DetectorParameters, ParametersView};
use crate::selection::{
    has_valid,
    lemma_target_is_closest_valid,
    select_target,
    spec_select_target,
    Candidate,
};

pub use crate::selection::CustomPose;

verus! {

/// Frames waiting between the camera and the detection stage.
pub const INGEST_QUEUE_CAPACITY: usize = 1;

/// Messages waiting between the detection stage and the telemetry publisher.
pub const TELEMETRY_QUEUE_CAPACITY: usize = 5;

/// Frames waiting between the detection stage and the preview.
pub const PREVIEW_QUEUE_CAPACITY: usize = 1;

/// The sending half of a queue of `crossbeam_channel`.
#[verifier::external_type_specification]
#[verifier::external_body]
#[verifier::reject_recursive_types(T)]
pub struct ExSender<T>(Sender<T>);

/// The receiving half of a queue of `crossbeam_channel`.
#[verifier::external_type_specification]
#[verifier::external_body]
#[verifier::reject_recursive_types(T)]
pub struct ExReceiver<T>(Receiver<T>);

/// The error of a receive on a queue that is empty and closed.
#[verifier::external_type_specification]
#[verifier::external_body]
pub struct ExRecvError(RecvError);

/// The error of a send on a closed queue; it holds what was not sent.
#[verifier::external_type_specification]
#[verifier::external_body]
#[verifier::reject_recursive_types(T)]
pub struct ExSendError<T>(SendError<T>);

/// A decoded image of the `image` crate, in any of its pixel layouts.
#[verifier::external_type_specification]
#[verifier::external_body]
pub struct ExDynamicImage(DynamicImage);

/// The error of `serde_json`.
#[verifier::external_type_specification]
#[verifier::external_body]
pub struct ExJsonError(serde_json::Error);

/// The error of `toml` on reading.
#[verifier::external_type_specification]
#[verifier::external_body]
pub struct ExTomlError(toml::de::Error);

/// What can end the detection stage with an error.
#[derive(Debug)]
pub enum ProcessError {
    Calibration(CalibrationError),
    Io(std::io::Error),
    Json(serde_json::Error),
    TomlDeserialization(toml::de::Error),
    Receive(RecvError),
    Send(SendError<Frame>),
}

pub type ProcessResult<T> = Result<T, ProcessError>;

impl ProcessError {
    /// How the text of the error begins. What follows is the text of the
    /// error inside.
    pub open spec fn spec_heading(self) -> Seq<char> {
        match self {
            ProcessError::Calibration(_) => "Fail to load calibration "@,
            ProcessError::Io(_) => "IO error: "@,
            ProcessError::Json(_) => "Json error: "@,
            ProcessError::TomlDeserialization(_) => "Toml error: "@,
            ProcessError::Receive(_) => "Receive error: "@,
            ProcessError::Send(_) => "Send error: "@,
        }
    }

    /// The text of the error: its heading, then what the error inside says.
    /// Of a calibration error that is its own message.
    pub open spec fn has_message(self, message: Seq<char>) -> bool {
        exists|inner: Seq<char>|
            #![trigger self.spec_heading() + inner]
            message == self.spec_heading() + inner && (self matches ProcessError::Calibration(
                error,
            ) ==> error.has_message(inner))
    }

    /// The error in words.
    pub fn message(&self) -> (message: String)
        ensures
            self.has_message(message@),
    {
        let inner: String = match self {
            ProcessError::Calibration(error) => error.message(),
            ProcessError::Io(error) => error.to_string(),
            ProcessError::Json(error) => error.to_string(),
            ProcessError::TomlDeserialization(error) => error.to_string(),
            ProcessError::Receive(error) => error.to_string(),
            ProcessError::Send(error) => error.to_string(),
        };
        let heading: &'static str = match self {
            ProcessError::Calibration(_) => "Fail to load calibration ",
            ProcessError::Io(_) => "IO error: ",
            ProcessError::Json(_) => "Json error: ",
            ProcessError::TomlDeserialization(_) => "Toml error: ",
            ProcessError::Receive(_) => "Receive error: ",
            ProcessError::Send(_) => "Send error: ",
        };
        let mut message: String = String::from_str(heading);
        message.append(inner.as_str());
        assert(message@ == self.spec_heading() + inner@);
        message
    }
}

impl From<CalibrationError> for ProcessError {
    fn from(error: CalibrationError) -> (r: ProcessError) {
        ProcessError::Calibration(error)
    }
}

impl vstd::std_specs::convert::FromSpecImpl<CalibrationError> for ProcessError {
    open spec fn obeys_from_spec() -> bool {
        true
    }

    open spec fn from_spec(error: CalibrationError) -> ProcessError {
        ProcessError::Calibration(error)
    }
}

impl From<std::io::Error> for ProcessError {
    fn from(error: std::io::Error) -> (r: ProcessError) {
        ProcessError::Io(error)
    }
}

impl vstd::std_specs::convert::FromSpecImpl<std::io::Error> for ProcessError {
    open spec fn obeys_from_spec() -> bool {
        true
    }

    open spec fn from_spec(error: std::io::Error) -> ProcessError {
        ProcessError::Io(error)
    }
}

impl From<serde_json::Error> for ProcessError {
    fn from(error: serde_json::Error) -> (r: ProcessError) {
        ProcessError::Json(error)
    }
}

impl vstd::std_specs::convert::FromSpecImpl<serde_json::Error> for ProcessError {
    open spec fn obeys_from_spec() -> bool {
        true
    }

    open spec fn from_spec(error: serde_json::Error) -> ProcessError {
        ProcessError::Json(error)
    }
}

impl From<toml::de::Error> for ProcessError {
    fn from(error: toml::de::Error) -> (r: ProcessError) {
        ProcessError::TomlDeserialization(error)
    }
}

impl vstd::std_specs::convert::FromSpecImpl<toml::de::Error> for ProcessError {
    open spec fn obeys_from_spec() -> bool {
        true
    }

    open spec fn from_spec(error: toml::de::Error) -> ProcessError {
        ProcessError::TomlDeserialization(error)
    }
}

impl From<RecvError> for ProcessError {
    fn from(error: RecvError) -> (r: ProcessError) {
        ProcessError::Receive(error)
    }
}

impl vstd::std_specs::convert::FromSpecImpl<RecvError> for ProcessError {
    open spec fn obeys_from_spec() -> bool {
        true
    }

    open spec fn from_spec(error: RecvError) -> ProcessError {
        ProcessError::Receive(error)
    }
}

impl From<SendError<Frame>> for ProcessError {
    fn from(error: SendError<Frame>) -> (r: ProcessError) {
        ProcessError::Send(error)
    }
}

impl vstd::std_specs::convert::FromSpecImpl<SendError<Frame>> for ProcessError {
    open spec fn obeys_from_spec() -> bool {
        true
    }

    open spec fn from_spec(error: SendError<Frame>) -> ProcessError {
        ProcessError::Send(error)
    }
}

/// How an offer to a bounded queue ended.
#[derive(Clone, Copy, Debug, PartialEq, Eq)]
pub enum SendOutcome {
    /// The item is in the queue.
    Sent,
    /// The queue was full: the item was dropped.
    Full,
    /// Nobody reads the queue any more: the item was dropped.
    Disconnected,
}

/// Whether a stage goes on to its next frame.
#[derive(Clone, Copy, Debug, PartialEq, Eq)]
pub enum StageControl {
    Continue,
    Stop,
}

/// Calls `Sender::try_send` of `crossbeam_channel`, which never waits, and
/// tells its three results apart. An item that was not taken is dropped.
/// Which of the three comes back depends on the other threads, so nothing is
/// claimed of it.
#[verifier::external_body]
fn offer<T>(queue: &Sender<T>, item: T) -> (outcome: SendOutcome) {
    match queue.try_send(item) {
        Ok(()) => SendOutcome::Sent,
        Err(TrySendError::Full(_)) => SendOutcome::Full,
        Err(TrySendError::Disconnected(_)) => SendOutcome::Disconnected,
    }
}

/// The message for one frame: the closest candidate that passes the filter,
/// or `NoTargets`.
pub open spec fn spec_process_frame(candidates: Seq<Candidate>, min_margin: i64) -> VisionMessage {
    VisionMessage::spec_from_selection(spec_select_target(candidates, min_margin))
}

/// Makes the message for one frame.
pub fn process_frame(candidates: &Vec<Candidate>, min_margin: i64) -> (message: VisionMessage)
    ensures
        message == spec_process_frame(candidates@, min_margin),
{
    VisionMessage::from_selection(select_target(candidates, min_margin))
}

/// The message of a frame names the closest candidate that passes the
/// filter: where a candidate passes, the message is a target that is one of
/// the passing candidates in the robot's axes, and no passing candidate has a
/// smaller planar distance.
pub proof fn lemma_message_names_the_closest(
    candidates: Seq<Candidate>,
    min_margin: i64,
    j: int,
)
    requires
        0 <= j < candidates.len(),
        candidates[j].spec_is_valid(min_margin),
    ensures
        exists|i: int|
            0 <= i < candidates.len() && (#[trigger] candidates[i]).spec_is_valid(min_margin)
                && candidates[i].spec_target().distance <= candidates[j].spec_target().distance
                && spec_process_frame(candidates, min_margin) == (VisionMessage::Target {
                id: candidates[i].id as i32,
                translation: candidates[i].spec_target().translation_matrix,
                rotation: candidates[i].spec_target().rotation_matrix,
            }),
{
    lemma_target_is_closest_valid(candidates, min_margin, j);
}

/// The message of a frame is `NoTargets` exactly when no candidate passes
/// the filter; so it is for a frame without candidates.
pub proof fn lemma_no_targets_iff_none_passes(candidates: Seq<Candidate>, min_margin: i64)
    ensures
        spec_process_frame(candidates, min_margin) == VisionMessage::NoTargets <==> !has_valid(
            candidates,
            min_margin,
        ),
        candidates.len() == 0 ==> spec_process_frame(candidates, min_margin)
            == VisionMessage::NoTargets,
{
}

/// The detection stage after it offered a message to the telemetry queue:
/// it goes on, whatever became of the message.
pub open spec fn spec_after_publish(outcome: SendOutcome) -> StageControl {
    StageControl::Continue
}

/// Decides whether the stage goes on after an offer to the telemetry queue.
#[verifier::when_used_as_spec(spec_after_publish)]
pub fn after_publish(outcome: SendOutcome) -> (control: StageControl)
    ensures
        control == spec_after_publish(outcome),
        control == StageControl::Continue,
{
    match outcome {
        SendOutcome::Sent => StageControl::Continue,
        SendOutcome::Full => StageControl::Continue,
        SendOutcome::Disconnected => StageControl::Continue,
    }
}

/// The detection stage after it offered a frame to the preview: it stops
/// when the preview is gone, and goes on otherwise.
pub open spec fn spec_after_preview(outcome: SendOutcome) -> StageControl {
    if outcome == SendOutcome::Disconnected {
        StageControl::Stop
    } else {
        StageControl::Continue
    }
}

/// Decides whether the stage goes on after an offer to the preview.
#[verifier::when_used_as_spec(spec_after_preview)]
pub fn after_preview(outcome: SendOutcome) -> (control: StageControl)
    ensures
        control == spec_after_preview(outcome),
{
    match outcome {
        SendOutcome::Sent => StageControl::Continue,
        SendOutcome::Full => StageControl::Continue,
        SendOutcome::Disconnected => StageControl::Stop,
    }
}

/// Why the detection stage left its loop.
#[derive(Clone, Copy, Debug, PartialEq, Eq)]
pub enum StageEnd {
    /// The queue of frames was closed.
    InputClosed,
    /// The preview is gone.
    PreviewClosed,
}

/// How the detection stage ends. A queue that was closed next to it is the
/// signal to shut down, not a failure: the stage ends without error.
pub fn stage_result(end: StageEnd) -> (r: ProcessResult<()>)
    ensures
        r is Ok,
{
    match end {
        StageEnd::InputClosed => Ok(()),
        StageEnd::PreviewClosed => Ok(()),
    }
}

/// Hands a camera frame to the detection stage without waiting: the frame
/// is dropped where the stage is still busy with the one before.
pub fn ingest(queue: &Sender<DynamicImage>, frame: DynamicImage) -> (outcome: SendOutcome) {
    offer(queue, frame)
}

/// What the detection stage did with one frame.
#[derive(Clone, Copy, Debug, PartialEq, Eq)]
pub struct FrameReport {
    /// The message for the frame.
    pub message: VisionMessage,
    /// What became of the message at the telemetry queue.
    pub published: SendOutcome,
    /// What became of the frame at the preview queue.
    pub previewed: SendOutcome,
    /// Whether the stage goes on.
    pub control: StageControl,
}

/// What the detection stage works with: the frames that come in, the
/// calibration and the parameters of the run, and the way out to the preview.
pub struct Processing {
    image_rx: Receiver<DynamicImage>,
    calibration: CameraCalibration,
    parameters: DetectorParameters,
    sender: Sender<Frame>,
}

/// Name of the calibration file in the configuration directory.
pub const CAMERA_CAL_FILE_NAME: &'static str = "cam-cal.json";

/// Name of the parameter file in the configuration directory.
pub const DETECTOR_PERAMS_FILE_NAME: &'static str = "process.toml";

impl Processing {
    /// Where frames come in.
    pub closed spec fn spec_image_rx(&self) -> Receiver<DynamicImage> {
        self.image_rx
    }

    /// Where frames go out to the preview.
    pub closed spec fn spec_sender(&self) -> Sender<Frame> {
        self.sender
    }

    /// The calibration of the run.
    pub closed spec fn spec_calibration(&self) -> CameraCalibration {
        self.calibration
    }

    /// The parameters of the run.
    pub closed spec fn spec_parameters(&self) -> DetectorParameters {
        self.parameters
    }

    /// A stage over the two queues, with the calibration and the
    /// parameters that hold before anything is loaded.
    pub fn new(image_rx: Receiver<DynamicImage>, sender: Sender<Frame>) -> (stage: Self)
        ensures
            stage.spec_image_rx() == image_rx,
            stage.spec_sender() == sender,
            stage.spec_calibration()@ == CalibrationView::unloaded(),
            stage.spec_parameters()@ == ParametersView::unconfigured(),
    {
        Processing {
            image_rx,
            sender,
            calibration: CameraCalibration::default(),
            parameters: DetectorParameters::default(),
        }
    }

    /// A stage over the two queues, with the calibration and the
    /// parameters that were read for the run.
    pub fn load(
        image_rx: Receiver<DynamicImage>,
        sender: Sender<Frame>,
        calibration: CameraCalibration,
        parameters: DetectorParameters,
    ) -> (stage: Self)
        ensures
            stage.spec_image_rx() == image_rx,
            stage.spec_sender() == sender,
            stage.spec_calibration() == calibration,
            stage.spec_parameters() == parameters,
    {
        Processing { image_rx, sender, calibration, parameters }
    }

    /// Where frames come in.
    pub fn image_rx(&self) -> (queue: &Receiver<DynamicImage>)
        ensures
            *queue == self.spec_image_rx(),
    {
        &self.image_rx
    }

    /// Where frames go out to the preview.
    pub fn sender(&self) -> (queue: &Sender<Frame>)
        ensures
            *queue == self.spec_sender(),
    {
        &self.sender
    }

    /// The calibration of the run.
    pub fn calibration(&self) -> (calibration: &CameraCalibration)
        ensures
            *calibration == self.spec_calibration(),
    {
        &self.calibration
    }

    /// The parameters of the run.
    pub fn parameters(&self) -> (parameters: &DetectorParameters)
        ensures
            *parameters == self.spec_parameters(),
    {
        &self.parameters
    }

    /// Which camera to open.
    pub fn camera_index(&self) -> (index: u32)
        ensures
            index == self.spec_parameters()@.camera_index,
    {
        self.parameters.camera_index()
    }

    /// What the stage does with one frame once the detector has run on it:
    /// it picks the target among `candidates`, offers the message to
    /// `telemetry` and the frame to the preview, neither of them waiting,
    /// and goes on unless the preview is gone. What became of the message
    /// does not count.
    pub fn handle_frame(
        &self,
        candidates: &Vec<Candidate>,
        frame: Frame,
        telemetry: &Sender<VisionMessage>,
    ) -> (report: FrameReport)
        ensures
            report.message == spec_process_frame(
                candidates@,
                self.spec_parameters()@.min_decision_margin,
            ),
            report.control == spec_after_preview(report.previewed),
    {
        let message: VisionMessage = process_frame(
            candidates,
            self.parameters.min_decision_margin(),
        );
        let published: SendOutcome = offer(telemetry, message);
        let _ = after_publish(published);
        let previewed: SendOutcome = offer(&self.sender, frame);
        FrameReport { message, published, previewed, control: after_preview(previewed) }
    }

    /// The same for a frame as the detector reported it: the reports are
    /// read first, and those that do not read are left out.
    pub fn handle_reports(
        &self,
        reports: &Vec<RawCandidate>,
        frame: Frame,
        telemetry: &Sender<VisionMessage>,
    ) -> (report: FrameReport)
        ensures
            report.message == spec_process_frame(
                spec_read_candidates(reports@),
                self.spec_parameters()@.min_decision_margin,
            ),
            report.control == spec_after_preview(report.previewed),
    {
        let candidates: Vec<Candidate> = read_candidates(reports);
        self.handle_frame(&candidates, frame, telemetry)
    }
}

} // verus!

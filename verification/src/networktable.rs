//! What the vision stage reports each frame, and how a report is laid out on
//! the topics of the telemetry bus.

use vstd::prelude::*;
use crate::selection::CustomPose;

verus! {

/// The result of one frame.
#[derive(Clone, Copy, Debug, PartialEq, Eq)]
pub enum VisionMessage {
    /// No marker passed the filter.
    NoTargets,
    /// The closest marker that passed: its id, its forward, lateral and
    /// vertical displacement, and the last entry of its rotation matrix.
    Target { id: i32, translation: [i64; 3], rotation: i64 },
}

/// A topic of the telemetry bus that the vision stage uses.
#[derive(Clone, Copy, Debug, PartialEq, Eq)]
pub enum Topic {
    /// Whether a marker is in sight.
    Detection,
    /// Id of the marker in sight.
    AprilTagId,
    /// Forward, lateral and vertical displacement of the marker in sight.
    AprilTagTMatrix,
    /// Set by the control system to switch detection on and off.
    Enable,
}

/// The type a topic is announced with.
#[derive(Clone, Copy, Debug, PartialEq, Eq)]
pub enum TopicType {
    Boolean,
    Int,
    FloatArray,
}

/// What the detection topic says.
#[derive(Clone, Copy, Debug, PartialEq, Eq)]
pub enum DetectionState {
    NoTarget,
    Target,
    Alternate,
}

/// A value to publish.
#[derive(Clone, Copy, Debug, PartialEq, Eq)]
pub enum TopicValue {
    Integer(i32),
    /// Three fixed-point numbers.
    FloatArray([i64; 3]),
}

/// One value to publish on one topic.
#[derive(Clone, Copy, Debug, PartialEq, Eq)]
pub struct TopicUpdate {
    pub topic: Topic,
    pub value: TopicValue,
}

impl DetectionState {
    /// The number that stands for the state on the bus.
    pub open spec fn spec_code(self) -> i32 {
        match self {
            DetectionState::NoTarget => 0,
            DetectionState::Target => 1,
            DetectionState::Alternate => 2,
        }
    }

    /// The number that stands for the state on the bus.
    #[verifier::when_used_as_spec(spec_code)]
    pub fn code(self) -> (c: i32)
        ensures
            c == self.spec_code(),
    {
        match self {
            DetectionState::NoTarget => 0,
            DetectionState::Target => 1,
            DetectionState::Alternate => 2,
        }
    }
}

impl Topic {
    /// The topic's name on the bus.
    pub open spec fn spec_name(self) -> Seq<char> {
        match self {
            Topic::Detection => "Vision/Detection"@,
            Topic::AprilTagId => "Vision/AprilTag/ID"@,
            Topic::AprilTagTMatrix => "Vision/AprilTag/TMatrix"@,
            Topic::Enable => "Vision/Enable"@,
        }
    }

    /// The topic's name on the bus.
    pub fn name(self) -> (n: &'static str)
        ensures
            n@ == self.spec_name(),
    {
        match self {
            Topic::Detection => "Vision/Detection",
            Topic::AprilTagId => "Vision/AprilTag/ID",
            Topic::AprilTagTMatrix => "Vision/AprilTag/TMatrix",
            Topic::Enable => "Vision/Enable",
        }
    }

    /// The type the topic is announced with.
    pub open spec fn spec_topic_type(self) -> TopicType {
        match self {
            Topic::Detection => TopicType::Int,
            Topic::AprilTagId => TopicType::Int,
            Topic::AprilTagTMatrix => TopicType::FloatArray,
            Topic::Enable => TopicType::Boolean,
        }
    }

    /// The type the topic is announced with.
    #[verifier::when_used_as_spec(spec_topic_type)]
    pub fn topic_type(self) -> (t: TopicType)
        ensures
            t == self.spec_topic_type(),
    {
        match self {
            Topic::Detection => TopicType::Int,
            Topic::AprilTagId => TopicType::Int,
            Topic::AprilTagTMatrix => TopicType::FloatArray,
            Topic::Enable => TopicType::Boolean,
        }
    }
}

impl TopicValue {
    /// The topic type that takes this value.
    pub open spec fn spec_value_type(self) -> TopicType {
        match self {
            TopicValue::Integer(_) => TopicType::Int,
            TopicValue::FloatArray(_) => TopicType::FloatArray,
        }
    }
}

impl VisionMessage {
    /// The message that reports the outcome of selection.
    pub open spec fn spec_from_selection(selected: Option<CustomPose>) -> VisionMessage {
        match selected {
            None => VisionMessage::NoTargets,
            Some(pose) => VisionMessage::Target {
                id: pose.id as i32,
                translation: pose.translation_matrix,
                rotation: pose.rotation_matrix,
            },
        }
    }

    /// Makes the message that reports the outcome of selection.
    pub fn from_selection(selected: Option<CustomPose>) -> (m: VisionMessage)
        ensures
            m == Self::spec_from_selection(selected),
    {
        match selected {
            None => VisionMessage::NoTargets,
            Some(pose) => VisionMessage::Target {
                id: pose.id as i32,
                translation: pose.translation_matrix,
                rotation: pose.rotation_matrix,
            },
        }
    }

    /// What the detection topic says of this message.
    pub open spec fn spec_detection_state(&self) -> DetectionState {
        match *self {
            VisionMessage::NoTargets => DetectionState::NoTarget,
            VisionMessage::Target { .. } => DetectionState::Target,
        }
    }

    /// What the detection topic says of this message.
    #[verifier::when_used_as_spec(spec_detection_state)]
    pub fn detection_state(&self) -> (s: DetectionState)
        ensures
            s == self.spec_detection_state(),
    {
        match self {
            VisionMessage::NoTargets => DetectionState::NoTarget,
            VisionMessage::Target { .. } => DetectionState::Target,
        }
    }

    /// The message as bytes for a plain byte stream: one zero byte says
    /// that no marker is in sight; a target is not written to such a stream.
    pub open spec fn spec_stream_bytes(self) -> Seq<u8> {
        match self {
            VisionMessage::NoTargets => seq![0u8],
            VisionMessage::Target { .. } => Seq::empty(),
        }
    }

    /// Writes the message for a plain byte stream.
    pub fn stream_bytes(&self) -> (bytes: Vec<u8>)
        ensures
            bytes@ == self.spec_stream_bytes(),
    {
        let mut bytes: Vec<u8> = Vec::new();
        match self {
            VisionMessage::NoTargets => {
                bytes.push(0);
            },
            VisionMessage::Target { .. } => {},
        }
        bytes
    }

    /// The values that publish this message, in the order they are sent:
    /// the detection state always, and for a target its id and its
    /// displacement.
    pub open spec fn spec_topic_updates(self) -> Seq<TopicUpdate> {
        match self {
            VisionMessage::NoTargets => seq![
                TopicUpdate { topic: Topic::Detection, value: TopicValue::Integer(0) },
            ],
            VisionMessage::Target { id, translation, rotation } => seq![
                TopicUpdate { topic: Topic::Detection, value: TopicValue::Integer(1) },
                TopicUpdate { topic: Topic::AprilTagId, value: TopicValue::Integer(id) },
                TopicUpdate {
                    topic: Topic::AprilTagTMatrix,
                    value: TopicValue::FloatArray(translation),
                },
            ],
        }
    }

    /// Lays the message out on the topics.
    pub fn topic_updates(&self) -> (updates: Vec<TopicUpdate>)
        ensures
            updates@ == self.spec_topic_updates(),
    {
        let mut updates: Vec<TopicUpdate> = Vec::new();
        updates.push(
            TopicUpdate {
                topic: Topic::Detection,
                value: TopicValue::Integer(self.detection_state().code()),
            },
        );
        match self {
            VisionMessage::NoTargets => {},
            VisionMessage::Target { id, translation, rotation } => {
                updates.push(TopicUpdate { topic: Topic::AprilTagId, value: TopicValue::Integer(*id) });
                updates.push(
                    TopicUpdate {
                        topic: Topic::AprilTagTMatrix,
                        value: TopicValue::FloatArray(*translation),
                    },
                );
            },
        }
        updates
    }
}

/// Seconds the publisher waits for the telemetry server when it starts.
pub const CONNECT_TIMEOUT_SECS: u64 = 5;

/// The topics the publisher announces once it is connected, in order.
pub fn published_topics() -> (topics: [Topic; 3])
    ensures
        topics@ == seq![Topic::Detection, Topic::AprilTagId, Topic::AprilTagTMatrix],
{
    let topics: [Topic; 3] = [Topic::Detection, Topic::AprilTagId, Topic::AprilTagTMatrix];
    assert(topics@ =~= seq![Topic::Detection, Topic::AprilTagId, Topic::AprilTagTMatrix]);
    topics
}

/// Why the publisher gave up.
#[derive(Clone, Copy, Debug, PartialEq, Eq)]
pub enum TelemetryError {
    /// The server did not answer within `CONNECT_TIMEOUT_SECS`.
    ConnectTimeout,
    /// The server turned the connection down.
    ConnectFailed,
}

/// Where the publisher stands.
#[derive(Clone, Copy, Debug, PartialEq, Eq)]
pub enum PublisherState {
    /// Waiting for the first connection.
    Connecting,
    /// Connected once; taking messages.
    Running,
    /// Done, for good.
    Stopped,
}

/// What happened to the publisher.
#[derive(Clone, Copy, Debug, PartialEq, Eq)]
pub enum PublisherEvent {
    /// The server answered in time.
    Connected,
    /// The server did not answer in time.
    ConnectTimedOut,
    /// The server turned the connection down.
    ConnectFailed,
    /// A message came out of the queue.
    Message(VisionMessage),
    /// A value could not be published, or the connection broke.
    PublishFailed,
    /// The queue was closed.
    QueueClosed,
}

/// What the publisher does next.
#[derive(Clone, Copy, Debug, PartialEq, Eq)]
pub enum PublisherAction {
    /// Announce `published_topics`.
    Announce,
    /// Publish the topic updates of the message.
    Publish(VisionMessage),
    /// Nothing; take the next message.
    Skip,
    /// End without error.
    Finish,
    /// End with the error.
    Fail(TelemetryError),
}

/// The publisher's rules. Only the first connection can fail it, by timing
/// out or by being turned down: once the publisher runs, a value that cannot
/// be published is skipped, and only the closing of its queue ends it.
pub open spec fn spec_publisher_step(state: PublisherState, event: PublisherEvent) -> (
    PublisherState,
    PublisherAction,
) {
    match (state, event) {
        (PublisherState::Connecting, PublisherEvent::Connected) => (
            PublisherState::Running,
            PublisherAction::Announce,
        ),
        (PublisherState::Connecting, PublisherEvent::ConnectTimedOut) => (
            PublisherState::Stopped,
            PublisherAction::Fail(TelemetryError::ConnectTimeout),
        ),
        (PublisherState::Connecting, PublisherEvent::ConnectFailed) => (
            PublisherState::Stopped,
            PublisherAction::Fail(TelemetryError::ConnectFailed),
        ),
        (PublisherState::Running, PublisherEvent::Message(message)) => (
            PublisherState::Running,
            PublisherAction::Publish(message),
        ),
        (PublisherState::Running, PublisherEvent::QueueClosed) => (
            PublisherState::Stopped,
            PublisherAction::Finish,
        ),
        _ => (state, PublisherAction::Skip),
    }
}

/// Applies the publisher's rules to one event.
pub fn publisher_step(state: PublisherState, event: PublisherEvent) -> (next: (
    PublisherState,
    PublisherAction,
))
    ensures
        next == spec_publisher_step(state, event),
{
    match state {
        PublisherState::Connecting => match event {
            PublisherEvent::Connected => (PublisherState::Running, PublisherAction::Announce),
            PublisherEvent::ConnectTimedOut => (
                PublisherState::Stopped,
                PublisherAction::Fail(TelemetryError::ConnectTimeout),
            ),
            PublisherEvent::ConnectFailed => (
                PublisherState::Stopped,
                PublisherAction::Fail(TelemetryError::ConnectFailed),
            ),
            _ => (state, PublisherAction::Skip),
        },
        PublisherState::Running => match event {
            PublisherEvent::Message(message) => (
                PublisherState::Running,
                PublisherAction::Publish(message),
            ),
            PublisherEvent::QueueClosed => (PublisherState::Stopped, PublisherAction::Finish),
            _ => (state, PublisherAction::Skip),
        },
        PublisherState::Stopped => (state, PublisherAction::Skip),
    }
}

/// A running publisher is ended by the closing of its queue and by nothing
/// else, and it never fails.
pub proof fn lemma_running_publisher_keeps_running(event: PublisherEvent)
    ensures
        spec_publisher_step(PublisherState::Running, event).0 == PublisherState::Stopped
            <==> event == PublisherEvent::QueueClosed,
        !(spec_publisher_step(PublisherState::Running, event).1 is Fail),
{
}

/// A publisher fails only while it waits for its first connection, and
/// only because that was not made.
pub proof fn lemma_only_first_connection_fails(state: PublisherState, event: PublisherEvent)
    ensures
        spec_publisher_step(state, event).1 is Fail <==> state == PublisherState::Connecting && (
        event == PublisherEvent::ConnectTimedOut || event == PublisherEvent::ConnectFailed),
{
}

/// A stopped publisher stays stopped and does nothing.
pub proof fn lemma_stopped_publisher_stays_stopped(event: PublisherEvent)
    ensures
        spec_publisher_step(PublisherState::Stopped, event) == (
            PublisherState::Stopped,
            PublisherAction::Skip,
        ),
{
}

/// With no marker in sight one value is published: zero on the detection
/// topic.
pub proof fn lemma_no_targets_publishes_zero()
    ensures
        VisionMessage::NoTargets.spec_topic_updates() == seq![
            TopicUpdate { topic: Topic::Detection, value: TopicValue::Integer(0) },
        ],
        VisionMessage::NoTargets.spec_detection_state().spec_code() == 0,
{
}

/// Every message publishes its detection state first, and every value goes
/// to a topic of its type.
pub proof fn lemma_updates_fit_their_topics(message: VisionMessage, i: int)
    requires
        0 <= i < message.spec_topic_updates().len(),
    ensures
        message.spec_topic_updates()[0] == (TopicUpdate {
            topic: Topic::Detection,
            value: TopicValue::Integer(message.spec_detection_state().spec_code()),
        }),
        message.spec_topic_updates()[i].value.spec_value_type()
            == message.spec_topic_updates()[i].topic.spec_topic_type(),
{
}

} // verus!

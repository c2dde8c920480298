use crossbeam_channel::{bounded, RecvError, SendError};
use vision::detection::{RawCandidate, RawPose};
use vision::frame::Frame;
use vision::networktable::VisionMessage;
use vision::process::{
    after_preview, after_publish, ingest, stage_result, ProcessError, Processing, SendOutcome,
    StageControl, StageEnd,
    CAMERA_CAL_FILE_NAME, DETECTOR_PERAMS_FILE_NAME, INGEST_QUEUE_CAPACITY,
    PREVIEW_QUEUE_CAPACITY, TELEMETRY_QUEUE_CAPACITY,
};
use vision::selection::{Candidate, Corner, Pose};
use vision::{AprilTagFamily, CalibrationError, CameraCalibration, DetectorParameters, DynamicImage};

fn picture() -> Frame {
    Frame::from_raw(2, 1, vec![1, 2, 3, 4, 5, 6, 7, 8]).unwrap()
}

fn candidate(id: usize, forward: i64) -> Candidate {
    Candidate {
        id,
        corners: [
            Corner { x: 0, y: 0 },
            Corner { x: 9_000_000, y: 0 },
            Corner { x: 9_000_000, y: 9_000_000 },
            Corner { x: 0, y: 9_000_000 },
        ],
        decision_margin: 1_500_000_000,
        pose: Some(Pose { translation: [0, 0, forward], rotation: [0, 0, 0, 0, 0, 0, 0, 0, 1] }),
    }
}

#[test]
fn queues_have_their_capacities() {
    assert_eq!(INGEST_QUEUE_CAPACITY, 1);
    assert_eq!(TELEMETRY_QUEUE_CAPACITY, 5);
    assert_eq!(PREVIEW_QUEUE_CAPACITY, 1);
    assert_eq!(CAMERA_CAL_FILE_NAME, "cam-cal.json");
    assert_eq!(DETECTOR_PERAMS_FILE_NAME, "process.toml");
}

#[test]
fn stage_goes_on_whatever_becomes_of_a_message() {
    for outcome in [SendOutcome::Sent, SendOutcome::Full, SendOutcome::Disconnected] {
        assert_eq!(after_publish(outcome), StageControl::Continue);
    }
}

#[test]
fn stage_stops_only_when_the_preview_is_gone() {
    assert_eq!(after_preview(SendOutcome::Sent), StageControl::Continue);
    assert_eq!(after_preview(SendOutcome::Full), StageControl::Continue);
    assert_eq!(after_preview(SendOutcome::Disconnected), StageControl::Stop);
}

#[test]
fn camera_frame_is_dropped_when_the_stage_is_busy() {
    let (tx, rx) = bounded::<DynamicImage>(INGEST_QUEUE_CAPACITY);
    assert_eq!(ingest(&tx, DynamicImage::new_rgba8(2, 2)), SendOutcome::Sent);
    assert_eq!(ingest(&tx, DynamicImage::new_rgba8(3, 3)), SendOutcome::Full);
    assert_eq!(ingest(&tx, DynamicImage::new_rgba8(4, 4)), SendOutcome::Full);
    let queued = rx.recv().unwrap();
    assert_eq!(queued.width(), 2);
    assert!(rx.try_recv().is_err());
    assert_eq!(ingest(&tx, DynamicImage::new_rgba8(5, 5)), SendOutcome::Sent);
    assert_eq!(rx.recv().unwrap().width(), 5);
    drop(rx);
    assert_eq!(ingest(&tx, DynamicImage::new_rgba8(2, 2)), SendOutcome::Disconnected);
}

#[test]
fn stage_keeps_reporting_when_telemetry_is_full() {
    let (_image_tx, image_rx) = bounded::<DynamicImage>(INGEST_QUEUE_CAPACITY);
    let (preview_tx, preview_rx) = bounded::<Frame>(PREVIEW_QUEUE_CAPACITY);
    let (net_tx, net_rx) = bounded::<VisionMessage>(TELEMETRY_QUEUE_CAPACITY);
    let stage = Processing::new(image_rx, preview_tx);
    for k in 0..20usize {
        let frame = vec![candidate(k, 1_000_000 + k as i64), candidate(100 + k, 2_000_000)];
        let report = stage.handle_frame(&frame, picture(), &net_tx);
        assert_eq!(
            report.message,
            VisionMessage::Target { id: k as i32, translation: [1_000_000 + k as i64, 0, 0], rotation: 1 }
        );
        let expected = if k < TELEMETRY_QUEUE_CAPACITY { SendOutcome::Sent } else { SendOutcome::Full };
        assert_eq!(report.published, expected);
        assert_eq!(report.control, StageControl::Continue);
        assert_eq!(preview_rx.try_recv().unwrap(), picture());
    }
    for k in 0..TELEMETRY_QUEUE_CAPACITY {
        assert!(matches!(net_rx.try_recv(), Ok(VisionMessage::Target { id, .. }) if id == k as i32));
    }
    assert!(net_rx.try_recv().is_err());
}

#[test]
fn stage_keeps_reporting_when_telemetry_is_gone() {
    let (_image_tx, image_rx) = bounded::<DynamicImage>(1);
    let (preview_tx, _preview_rx) = bounded::<Frame>(1);
    let (net_tx, net_rx) = bounded::<VisionMessage>(5);
    drop(net_rx);
    let stage = Processing::new(image_rx, preview_tx);
    let report = stage.handle_frame(&Vec::new(), picture(), &net_tx);
    assert_eq!(report.message, VisionMessage::NoTargets);
    assert_eq!(report.published, SendOutcome::Disconnected);
    assert_eq!(report.previewed, SendOutcome::Sent);
    assert_eq!(report.control, StageControl::Continue);
    let report = stage.handle_frame(&Vec::new(), picture(), &net_tx);
    assert_eq!(report.previewed, SendOutcome::Full);
    assert_eq!(report.control, StageControl::Continue);
}

#[test]
fn stage_stops_when_the_preview_is_gone() {
    let (_image_tx, image_rx) = bounded::<DynamicImage>(1);
    let (preview_tx, preview_rx) = bounded::<Frame>(1);
    let (net_tx, net_rx) = bounded::<VisionMessage>(5);
    drop(preview_rx);
    let stage = Processing::new(image_rx, preview_tx);
    let report = stage.handle_frame(&vec![candidate(3, 500_000)], picture(), &net_tx);
    assert_eq!(report.published, SendOutcome::Sent);
    assert_eq!(report.previewed, SendOutcome::Disconnected);
    assert_eq!(report.control, StageControl::Stop);
    assert!(matches!(net_rx.try_recv(), Ok(VisionMessage::Target { id: 3, .. })));
}

#[test]
fn stage_filters_by_its_own_threshold() {
    let (_image_tx, image_rx) = bounded::<DynamicImage>(1);
    let (preview_tx, _preview_rx) = bounded::<Frame>(1);
    let (net_tx, _net_rx) = bounded::<VisionMessage>(5);
    let parameters = DetectorParameters::new(
        vec![AprilTagFamily::Tag36H11],
        8_000_000,
        2_000_000,
        1_500_000_001,
        DetectorParameters::default().color(),
        "127.0.0.1".to_string(),
        5810,
        1,
    )
    .unwrap();
    let stage = Processing::load(image_rx, preview_tx, CameraCalibration::default(), parameters);
    assert_eq!(stage.camera_index(), 1);
    assert_eq!(stage.parameters().min_decision_margin(), 1_500_000_001);
    let report = stage.handle_frame(&vec![candidate(3, 500_000)], picture(), &net_tx);
    assert_eq!(report.message, VisionMessage::NoTargets);
}

#[test]
fn new_stage_has_the_defaults() {
    let (image_tx, image_rx) = bounded::<DynamicImage>(1);
    let (preview_tx, preview_rx) = bounded::<Frame>(1);
    let stage = Processing::new(image_rx, preview_tx);
    assert_eq!(stage.camera_index(), 0);
    assert_eq!(stage.parameters().families(), &vec![AprilTagFamily::Tag16H5]);
    assert_eq!(stage.parameters().decimation(), 16_000_000);
    assert_eq!(stage.calibration().fx(), 0);
    assert_eq!(stage.calibration().mtx_rows(), &vec![Vec::<u64>::new()]);
    image_tx.try_send(DynamicImage::new_rgba8(6, 1)).unwrap();
    assert_eq!(stage.image_rx().recv().unwrap().width(), 6);
    stage.sender().try_send(picture()).unwrap();
    assert_eq!(preview_rx.recv().unwrap(), picture());
}

#[test]
fn errors_become_process_errors() {
    let calibration = CalibrationError::LoadError("bad".to_string());
    assert!(matches!(
        ProcessError::from(calibration),
        ProcessError::Calibration(CalibrationError::LoadError(_))
    ));
    let io = std::io::Error::new(std::io::ErrorKind::NotFound, "gone");
    assert!(matches!(ProcessError::from(io), ProcessError::Io(_)));
    let json = serde_json::from_str::<serde_json::Value>("{").unwrap_err();
    assert!(matches!(ProcessError::from(json), ProcessError::Json(_)));
    let toml = toml::from_str::<toml::Table>("a = ").unwrap_err();
    assert!(matches!(ProcessError::from(toml), ProcessError::TomlDeserialization(_)));
    assert!(matches!(ProcessError::from(RecvError), ProcessError::Receive(_)));
    assert!(matches!(ProcessError::from(SendError(picture())), ProcessError::Send(_)));
}

#[test]
fn process_errors_read_as_sentences() {
    let calibration = ProcessError::Calibration(CalibrationError::LoadError("bad".to_string()));
    assert_eq!(calibration.message(), "Fail to load calibration Failed to load file: bad");
    let io = ProcessError::Io(std::io::Error::new(std::io::ErrorKind::NotFound, "gone"));
    assert_eq!(io.message(), "IO error: gone");
    let json = serde_json::from_str::<serde_json::Value>("{").unwrap_err();
    let text = json.to_string();
    assert_eq!(ProcessError::Json(json).message(), format!("Json error: {}", text));
    let toml = toml::from_str::<toml::Table>("a = ").unwrap_err();
    let text = toml.to_string();
    assert_eq!(ProcessError::TomlDeserialization(toml).message(), format!("Toml error: {}", text));
    assert_eq!(
        ProcessError::Receive(RecvError).message(),
        format!("Receive error: {}", RecvError)
    );
    assert_eq!(
        ProcessError::Send(SendError(picture())).message(),
        "Send error: sending on a disconnected channel"
    );
}

#[test]
fn closed_queue_ends_the_stage_without_error() {
    assert!(stage_result(StageEnd::InputClosed).is_ok());
    assert!(stage_result(StageEnd::PreviewClosed).is_ok());
}

#[test]
fn stage_reads_the_detectors_reports() {
    let (_image_tx, image_rx) = bounded::<DynamicImage>(1);
    let (preview_tx, _preview_rx) = bounded::<Frame>(1);
    let (net_tx, net_rx) = bounded::<VisionMessage>(5);
    let stage = Processing::new(image_rx, preview_tx);
    let b = |x: f64| x.to_bits();
    let seen = |id: usize, forward: f64, margin: f64| RawCandidate {
        id,
        corners: [[b(10.0), b(10.0)], [b(50.0), b(10.0)], [b(50.0), b(50.0)], [b(10.0), b(50.0)]],
        decision_margin: b(margin),
        pose: Some(RawPose {
            translation: [b(0.25), b(-0.5), b(forward)],
            rotation: [b(1.0), b(0.0), b(0.0), b(0.0), b(1.0), b(0.0), b(0.0), b(0.0), b(0.75)],
        }),
    };
    let reports = vec![
        seen(3, 1.5, 1200.0),
        seen(7, 0.8, 1200.0),
        seen(9, 0.1, 1100.0),
        seen(11, 0.2, f64::NAN),
    ];
    let report = stage.handle_reports(&reports, picture(), &net_tx);
    assert_eq!(
        report.message,
        VisionMessage::Target { id: 7, translation: [800_000, 250_000, -500_000], rotation: 750_000 }
    );
    assert_eq!(report.control, StageControl::Continue);
    assert_eq!(net_rx.try_recv(), Ok(report.message));
}

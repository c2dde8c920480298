use vision::detector::{DetectorSettings, QuadThresholds, BITS_CORRECTED, DETECTOR_THREADS};
use vision::parameters::{
    ColorBounds, ParameterError, ParameterRecord, Tunable, DEFAULT_DECIMATION,
    DEFAULT_MIN_DECISION_MARGIN, DEFAULT_NETWORK_TABLE_PORT, DEFAULT_SHARPENING,
};
use vision::{AprilTagFamily, DetectorParameters};

fn open_bounds() -> ColorBounds {
    ColorBounds { rmin: 0, rmax: 255, gmin: 0, gmax: 255, bmin: 0, bmax: 255 }
}

fn parameters(families: Vec<AprilTagFamily>, decimation: i64) -> Result<DetectorParameters, ParameterError> {
    DetectorParameters::new(
        families,
        250_000,
        decimation,
        900_000_000,
        ColorBounds { rmin: 1, rmax: 2, gmin: 3, gmax: 4, bmin: 5, bmax: 6 },
        "10.12.34.2".to_string(),
        1735,
        2,
    )
}

#[test]
fn parameters_hold_what_they_were_given() {
    let p = parameters(vec![AprilTagFamily::Tag36H11, AprilTagFamily::Tag16H5], 2_000_000).unwrap();
    assert_eq!(p.families(), &vec![AprilTagFamily::Tag36H11, AprilTagFamily::Tag16H5]);
    assert_eq!(p.sharpening(), 250_000);
    assert_eq!(p.decimation(), 2_000_000);
    assert_eq!(p.min_decision_margin(), 900_000_000);
    assert_eq!(p.color(), ColorBounds { rmin: 1, rmax: 2, gmin: 3, gmax: 4, bmin: 5, bmax: 6 });
    assert_eq!(p.network_table_addr(), "10.12.34.2");
    assert_eq!(p.network_table_port(), 1735);
    assert_eq!(p.camera_index(), 2);
}

#[test]
fn parameters_without_families_are_turned_down() {
    assert_eq!(parameters(Vec::new(), 2_000_000).err(), Some(ParameterError::NoFamilies));
    assert_eq!(parameters(Vec::new(), 0).err(), Some(ParameterError::NoFamilies));
}

#[test]
fn decimation_below_one_is_turned_down() {
    let families = vec![AprilTagFamily::Tag16H5];
    assert_eq!(parameters(families.clone(), 999_999).err(), Some(ParameterError::DecimationBelowOne));
    assert_eq!(parameters(families.clone(), -16_000_000).err(), Some(ParameterError::DecimationBelowOne));
    assert!(parameters(families, 1_000_000).is_ok());
}

#[test]
fn unconfigured_parameters_have_the_defaults() {
    let p = DetectorParameters::default();
    assert_eq!(p.families(), &vec![AprilTagFamily::Tag16H5]);
    assert_eq!(p.sharpening(), 8_000_000);
    assert_eq!(p.decimation(), 16_000_000);
    assert_eq!(p.min_decision_margin(), 1_150_000_000);
    assert_eq!(p.color(), open_bounds());
    assert_eq!(p.network_table_addr(), "127.0.0.1");
    assert_eq!(p.network_table_port(), 5810);
    assert_eq!(p.camera_index(), 0);
    assert_eq!(DEFAULT_SHARPENING, 8_000_000);
    assert_eq!(DEFAULT_DECIMATION, 16_000_000);
    assert_eq!(DEFAULT_MIN_DECISION_MARGIN, 1_150_000_000);
    assert_eq!(DEFAULT_NETWORK_TABLE_PORT, 5810);
    assert_eq!(AprilTagFamily::default(), AprilTagFamily::Tag16H5);
}

#[test]
fn tunables_can_be_replaced() {
    let p = DetectorParameters::default().with_tunables(4_500_000, 1_000_000).unwrap();
    assert_eq!(p.sharpening(), 4_500_000);
    assert_eq!(p.decimation(), 1_000_000);
    assert_eq!(p.families(), &vec![AprilTagFamily::Tag16H5]);
    assert_eq!(p.network_table_port(), 5810);
    assert_eq!(
        DetectorParameters::default().with_tunables(4_500_000, 999_999).err(),
        Some(ParameterError::DecimationBelowOne)
    );
}

#[test]
fn parameters_rebuilt_from_their_parts_are_equal() {
    let p = parameters(vec![AprilTagFamily::TagCircle21H7, AprilTagFamily::TagCustom48h12], 3_250_000).unwrap();
    let q = DetectorParameters::new(
        p.families().clone(),
        p.sharpening(),
        p.decimation(),
        p.min_decision_margin(),
        p.color(),
        p.network_table_addr().to_string(),
        p.network_table_port(),
        p.camera_index(),
    )
    .unwrap();
    assert_eq!(q.families(), p.families());
    assert_eq!(q.sharpening(), p.sharpening());
    assert_eq!(q.decimation(), p.decimation());
    assert_eq!(q.min_decision_margin(), p.min_decision_margin());
    assert_eq!(q.color(), p.color());
    assert_eq!(q.network_table_addr(), p.network_table_addr());
    assert_eq!(q.network_table_port(), p.network_table_port());
    assert_eq!(q.camera_index(), p.camera_index());
    let copy = p.clone();
    assert_eq!(copy.families(), p.families());
    assert_eq!(copy.network_table_addr(), "10.12.34.2");
    assert_eq!(copy.decimation(), 3_250_000);
}

#[test]
fn families_have_the_detectors_names() {
    let names = [
        (AprilTagFamily::Tag16H5, "tag16h5"),
        (AprilTagFamily::Tag25H9, "tag25h9"),
        (AprilTagFamily::Tag36H11, "tag36h11"),
        (AprilTagFamily::TagCircle21H7, "tagCircle21h7"),
        (AprilTagFamily::TagCircle49h12, "tagCircle49h12"),
        (AprilTagFamily::TagStandard41h12, "tagStandard41h12"),
        (AprilTagFamily::TagStandard52h13, "tagStandard52h13"),
        (AprilTagFamily::TagCustom48h12, "tagCustom48h12"),
    ];
    for (family, name) in names {
        assert_eq!(family.name(), name);
        assert!(name.parse::<apriltag::Family>().is_ok());
    }
}

#[test]
fn family_becomes_the_detectors_family() {
    assert!(matches!(AprilTagFamily::Tag16H5.to_family(), apriltag::Family::Tag16h5(_)));
    assert!(matches!(AprilTagFamily::Tag25H9.to_family(), apriltag::Family::Tag25h9(_)));
    assert!(matches!(AprilTagFamily::Tag36H11.to_family(), apriltag::Family::Tag36h11(_)));
    assert!(matches!(
        AprilTagFamily::TagCircle21H7.to_family(),
        apriltag::Family::TagCircle21h7(_)
    ));
    assert!(matches!(
        AprilTagFamily::TagCircle49h12.to_family(),
        apriltag::Family::TagCircle49h12(_)
    ));
    assert!(matches!(
        AprilTagFamily::TagStandard41h12.to_family(),
        apriltag::Family::TagStandard41h12(_)
    ));
    assert!(matches!(
        AprilTagFamily::TagStandard52h13.to_family(),
        apriltag::Family::TagStandard52h13(_)
    ));
    assert!(matches!(
        AprilTagFamily::TagCustom48h12.to_family(),
        apriltag::Family::TagCustom48h12(_)
    ));
}

#[test]
fn detector_settings_follow_the_parameters() {
    let p = parameters(vec![AprilTagFamily::Tag36H11, AprilTagFamily::Tag25H9], 2_000_000).unwrap();
    let settings = DetectorSettings::for_parameters(&p);
    assert_eq!(settings.families, vec![AprilTagFamily::Tag36H11, AprilTagFamily::Tag25H9]);
    assert_eq!(settings.thread_number, 8);
    assert_eq!(settings.decimation, 2_000_000);
    assert_eq!(settings.sharpening, 250_000);
    assert!(!settings.refine_edges);
    assert_eq!(settings.sigma, 0);
    assert_eq!(
        settings.thresholds,
        QuadThresholds {
            min_cluster_pixels: 5,
            max_maxima_number: 10,
            min_angle: 0,
            min_opposite_angle: 360_000_000,
            max_mse: 10_000_000,
            min_white_black_diff: 5,
            deglitch: false,
        }
    );
    assert_eq!(QuadThresholds::fixed(), settings.thresholds);
    assert_eq!(DETECTOR_THREADS, 8);
    assert_eq!(BITS_CORRECTED, 1);
}

fn record(sharpening: f64, decimation: f64, margin: f64) -> ParameterRecord {
    ParameterRecord {
        families: vec![AprilTagFamily::Tag36H11],
        sharpening: sharpening.to_bits(),
        decimation: decimation.to_bits(),
        min_decision_margin: margin.to_bits(),
        color: open_bounds(),
        network_table_addr: "10.0.0.2".to_string(),
        network_table_port: 5810,
        camera_index: 3,
    }
}

#[test]
fn record_is_read_number_by_number() {
    let p = DetectorParameters::from_record(record(0.25, 2.5, 1150.0)).unwrap();
    assert_eq!(p.families(), &vec![AprilTagFamily::Tag36H11]);
    assert_eq!(p.sharpening(), 250_000);
    assert_eq!(p.decimation(), 2_500_000);
    assert_eq!(p.min_decision_margin(), 1_150_000_000);
    assert_eq!(p.color(), open_bounds());
    assert_eq!(p.network_table_addr(), "10.0.0.2");
    assert_eq!(p.network_table_port(), 5810);
    assert_eq!(p.camera_index(), 3);
}

#[test]
fn record_with_a_number_that_does_not_read_is_turned_down() {
    assert_eq!(
        DetectorParameters::from_record(record(f64::NAN, f64::NAN, f64::NAN)).err(),
        Some(ParameterError::Unreadable(Tunable::Sharpening))
    );
    assert_eq!(
        DetectorParameters::from_record(record(8.0, f64::INFINITY, f64::NAN)).err(),
        Some(ParameterError::Unreadable(Tunable::Decimation))
    );
    assert_eq!(
        DetectorParameters::from_record(record(8.0, 16.0, 1.0e13)).err(),
        Some(ParameterError::Unreadable(Tunable::MinDecisionMargin))
    );
}

#[test]
fn record_that_breaks_a_rule_is_turned_down() {
    assert_eq!(
        DetectorParameters::from_record(record(8.0, 0.999999, 0.0)).err(),
        Some(ParameterError::DecimationBelowOne)
    );
    let mut empty = record(8.0, 16.0, 0.0);
    empty.families.clear();
    assert_eq!(DetectorParameters::from_record(empty).err(), Some(ParameterError::NoFamilies));
    let mut unreadable = record(f64::NAN, 16.0, 0.0);
    unreadable.families.clear();
    assert_eq!(
        DetectorParameters::from_record(unreadable).err(),
        Some(ParameterError::Unreadable(Tunable::Sharpening))
    );
}

#[test]
fn parameters_are_written_as_doubles() {
    let written = DetectorParameters::default().to_record();
    assert_eq!(written.families, vec![AprilTagFamily::Tag16H5]);
    assert_eq!(f64::from_bits(written.sharpening), 8.0);
    assert_eq!(f64::from_bits(written.decimation), 16.0);
    assert_eq!(f64::from_bits(written.min_decision_margin), 1150.0);
    assert_eq!(written.color, open_bounds());
    assert_eq!(written.network_table_addr, "127.0.0.1");
    assert_eq!(written.network_table_port, 5810);
    assert_eq!(written.camera_index, 0);
}

#[test]
fn parameters_written_and_read_back_are_equal() {
    for (sharpening, decimation, margin) in [
        (8_000_000i64, 16_000_000i64, 1_150_000_000i64),
        (250_000, 1_000_000, 0),
        (-3, 1_000_001, -1),
        (123_456_789_012, 999_999_999_999, 1i64 << 51),
        (-(1i64 << 51), 1i64 << 51, -(1i64 << 51) + 1),
    ] {
        let p = DetectorParameters::new(
            vec![AprilTagFamily::TagStandard41h12, AprilTagFamily::Tag16H5],
            sharpening,
            decimation,
            margin,
            ColorBounds { rmin: 9, rmax: 8, gmin: 7, gmax: 6, bmin: 5, bmax: 4 },
            "10.12.34.2".to_string(),
            1735,
            4,
        )
        .unwrap();
        let q = DetectorParameters::from_record(p.to_record()).unwrap();
        assert_eq!(q.families(), p.families());
        assert_eq!(q.sharpening(), sharpening);
        assert_eq!(q.decimation(), decimation);
        assert_eq!(q.min_decision_margin(), margin);
        assert_eq!(q.color(), p.color());
        assert_eq!(q.network_table_addr(), p.network_table_addr());
        assert_eq!(q.network_table_port(), p.network_table_port());
        assert_eq!(q.camera_index(), p.camera_index());
    }
}

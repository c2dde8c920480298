//! The settings of a run: which marker families to look for, the detector's
//! tunables, the confidence threshold, where telemetry goes and which camera
//! to open.

use vstd::prelude::*;
use std::str::FromStr;
use apriltag::Family;
use crate::fixed::MICRO;
use crate::ieee::{
    bits_from_micro,
    is_written_as,
    lemma_written_number_reads_back,
    magnitude_of,
    micro_from_bits,
    spec_micro_from_bits,
};

verus! {

/// The marker families that the detector knows.
#[derive(Clone, Copy, Debug, PartialEq, Eq, Structural)]
pub enum AprilTagFamily {
    Tag16H5,
    Tag25H9,
    Tag36H11,
    TagCircle21H7,
    TagCircle49h12,
    TagStandard41h12,
    TagStandard52h13,
    TagCustom48h12,
}

/// A marker family as the `apriltag` crate holds it: one variant for each
/// kind of family.
#[verifier::external_type_specification]
pub struct ExFamily(Family);

/// The `Tag16h5` family of the `apriltag` crate.
#[verifier::external_type_specification]
#[verifier::external_body]
pub struct ExTag16h5(apriltag::families::Tag16h5);

/// The `Tag25h9` family of the `apriltag` crate.
#[verifier::external_type_specification]
#[verifier::external_body]
pub struct ExTag25h9(apriltag::families::Tag25h9);

/// The `Tag36h11` family of the `apriltag` crate.
#[verifier::external_type_specification]
#[verifier::external_body]
pub struct ExTag36h11(apriltag::families::Tag36h11);

/// The `TagCircle21h7` family of the `apriltag` crate.
#[verifier::external_type_specification]
#[verifier::external_body]
pub struct ExTagCircle21h7(apriltag::families::TagCircle21h7);

/// The `TagCircle49h12` family of the `apriltag` crate.
#[verifier::external_type_specification]
#[verifier::external_body]
pub struct ExTagCircle49h12(apriltag::families::TagCircle49h12);

/// The `TagStandard41h12` family of the `apriltag` crate.
#[verifier::external_type_specification]
#[verifier::external_body]
pub struct ExTagStandard41h12(apriltag::families::TagStandard41h12);

/// The `TagStandard52h13` family of the `apriltag` crate.
#[verifier::external_type_specification]
#[verifier::external_body]
pub struct ExTagStandard52h13(apriltag::families::TagStandard52h13);

/// The `TagCustom48h12` family of the `apriltag` crate.
#[verifier::external_type_specification]
#[verifier::external_body]
pub struct ExTagCustom48h12(apriltag::families::TagCustom48h12);

/// The names by which the `apriltag` crate finds a family.
pub open spec fn is_family_name(name: Seq<char>) -> bool {
    ||| name == "tag16h5"@
    ||| name == "tag25h9"@
    ||| name == "tag36h11"@
    ||| name == "tagCircle21h7"@
    ||| name == "tagCircle49h12"@
    ||| name == "tagStandard41h12"@
    ||| name == "tagStandard52h13"@
    ||| name == "tagCustom48h12"@
}

/// Calls `Family::from_str` of the `apriltag` crate, which matches the name
/// against its list of eight, builds the family of that name in the variant
/// of that name, and fails on any other name. The contract claims that list
/// and that variant, and nothing of what the variant holds.
#[verifier::external_body]
fn family_by_name(name: &str) -> (family: Option<Family>)
    ensures
        family is Some <==> is_family_name(name@),
        family matches Some(found) ==> AprilTagFamily::spec_of(found).spec_name() == name@,
{
    Family::from_str(name).ok()
}

/// No two families have the same name.
pub proof fn lemma_family_names_differ(a: AprilTagFamily, b: AprilTagFamily)
    requires
        a.spec_name() == b.spec_name(),
    ensures
        a == b,
{
    reveal_strlit("tag16h5");
    reveal_strlit("tag25h9");
    reveal_strlit("tag36h11");
    reveal_strlit("tagCircle21h7");
    reveal_strlit("tagCircle49h12");
    reveal_strlit("tagStandard41h12");
    reveal_strlit("tagStandard52h13");
    reveal_strlit("tagCustom48h12");
    if a != b {
        let x = a.spec_name();
        let y = b.spec_name();
        assert(x.len() != y.len() || x[3] != y[3] || x[4] != y[4] || x[11] != y[11]);
    }
}

impl AprilTagFamily {
    /// The family of this library that a family of the `apriltag` crate
    /// is: the one of the same kind.
    pub open spec fn spec_of(family: Family) -> AprilTagFamily {
        match family {
            Family::Tag16h5(_) => AprilTagFamily::Tag16H5,
            Family::Tag25h9(_) => AprilTagFamily::Tag25H9,
            Family::Tag36h11(_) => AprilTagFamily::Tag36H11,
            Family::TagCircle21h7(_) => AprilTagFamily::TagCircle21H7,
            Family::TagCircle49h12(_) => AprilTagFamily::TagCircle49h12,
            Family::TagStandard41h12(_) => AprilTagFamily::TagStandard41h12,
            Family::TagStandard52h13(_) => AprilTagFamily::TagStandard52h13,
            Family::TagCustom48h12(_) => AprilTagFamily::TagCustom48h12,
        }
    }

    /// The name by which the detector finds the family.
    pub open spec fn spec_name(self) -> Seq<char> {
        match self {
            AprilTagFamily::Tag16H5 => "tag16h5"@,
            AprilTagFamily::Tag25H9 => "tag25h9"@,
            AprilTagFamily::Tag36H11 => "tag36h11"@,
            AprilTagFamily::TagCircle21H7 => "tagCircle21h7"@,
            AprilTagFamily::TagCircle49h12 => "tagCircle49h12"@,
            AprilTagFamily::TagStandard41h12 => "tagStandard41h12"@,
            AprilTagFamily::TagStandard52h13 => "tagStandard52h13"@,
            AprilTagFamily::TagCustom48h12 => "tagCustom48h12"@,
        }
    }

    /// The name by which the detector finds the family.
    pub fn name(&self) -> (name: &'static str)
        ensures
            name@ == self.spec_name(),
            is_family_name(name@),
    {
        match self {
            AprilTagFamily::Tag16H5 => "tag16h5",
            AprilTagFamily::Tag25H9 => "tag25h9",
            AprilTagFamily::Tag36H11 => "tag36h11",
            AprilTagFamily::TagCircle21H7 => "tagCircle21h7",
            AprilTagFamily::TagCircle49h12 => "tagCircle49h12",
            AprilTagFamily::TagStandard41h12 => "tagStandard41h12",
            AprilTagFamily::TagStandard52h13 => "tagStandard52h13",
            AprilTagFamily::TagCustom48h12 => "tagCustom48h12",
        }
    }

    /// The family for the detector: the detector's family of the same
    /// kind. Every family of this library has a name that the detector
    /// knows, so this cannot fail.
    pub fn to_family(&self) -> (family: Family)
        ensures
            Self::spec_of(family) == *self,
    {
        let family: Family = family_by_name(self.name()).unwrap();
        proof {
            lemma_family_names_differ(Self::spec_of(family), *self);
        }
        family
    }
}

impl Default for AprilTagFamily {
    fn default() -> (family: Self)
        ensures
            family == AprilTagFamily::Tag16H5,
    {
        AprilTagFamily::Tag16H5
    }
}

/// Colour bounds of the run's configuration. The detection stage does not
/// read them.
#[derive(Clone, Copy, Debug, PartialEq, Eq, Structural)]
pub struct ColorBounds {
    pub rmin: u8,
    pub rmax: u8,
    pub gmin: u8,
    pub gmax: u8,
    pub bmin: u8,
    pub bmax: u8,
}

/// The real numbers among the parameters.
#[derive(Clone, Copy, Debug, PartialEq, Eq, Structural)]
pub enum Tunable {
    Sharpening,
    Decimation,
    MinDecisionMargin,
}

/// Why a set of parameters was turned down.
#[derive(Clone, Copy, Debug, PartialEq, Eq, Structural)]
pub enum ParameterError {
    /// No marker family was named.
    NoFamilies,
    /// The decimation factor is below one.
    DecimationBelowOne,
    /// The number is an infinity or a NaN, or it is out of range.
    Unreadable(Tunable),
}

/// The parameters as the parameter file holds them: the real numbers are
/// doubles, in their bit patterns.
#[derive(Debug)]
pub struct ParameterRecord {
    pub families: Vec<AprilTagFamily>,
    pub sharpening: u64,
    pub decimation: u64,
    pub min_decision_margin: u64,
    pub color: ColorBounds,
    pub network_table_addr: String,
    pub network_table_port: u16,
    pub camera_index: u32,
}

/// What a parameter record holds.
pub struct RecordView {
    pub families: Seq<AprilTagFamily>,
    pub sharpening: u64,
    pub decimation: u64,
    pub min_decision_margin: u64,
    pub color: ColorBounds,
    pub network_table_addr: Seq<char>,
    pub network_table_port: u16,
    pub camera_index: u32,
}

impl View for ParameterRecord {
    type V = RecordView;

    open spec fn view(&self) -> RecordView {
        RecordView {
            families: self.families@,
            sharpening: self.sharpening,
            decimation: self.decimation,
            min_decision_margin: self.min_decision_margin,
            color: self.color,
            network_table_addr: self.network_table_addr@,
            network_table_port: self.network_table_port,
            camera_index: self.camera_index,
        }
    }
}

/// The settings of a run. Fixed-point fields count in millionths.
#[derive(Debug)]
pub struct DetectorParameters {
    families: Vec<AprilTagFamily>,
    sharpening: i64,
    decimation: i64,
    min_decision_margin: i64,
    color: ColorBounds,
    network_table_addr: String,
    network_table_port: u16,
    camera_index: u32,
}

/// What a set of parameters holds.
pub struct ParametersView {
    pub families: Seq<AprilTagFamily>,
    pub sharpening: i64,
    pub decimation: i64,
    pub min_decision_margin: i64,
    pub color: ColorBounds,
    pub network_table_addr: Seq<char>,
    pub network_table_port: u16,
    pub camera_index: u32,
}

impl ParametersView {
    /// What every set of parameters meets: at least one family, and a
    /// decimation factor of one or more.
    pub open spec fn is_valid(self) -> bool {
        self.families.len() > 0 && self.decimation >= MICRO
    }

    /// Why these contents are turned down, if they are.
    pub open spec fn fault(self) -> Option<ParameterError> {
        if self.families.len() == 0 {
            Some(ParameterError::NoFamilies)
        } else if self.decimation < MICRO {
            Some(ParameterError::DecimationBelowOne)
        } else {
            None
        }
    }
}

/// Sharpening where none is configured: 8.
pub const DEFAULT_SHARPENING: i64 = 8_000_000;

/// Decimation where none is configured: 16.
pub const DEFAULT_DECIMATION: i64 = 16_000_000;

/// Least decision margin where none is configured: 1150.
pub const DEFAULT_MIN_DECISION_MARGIN: i64 = 1_150_000_000;

/// Telemetry port where none is configured.
pub const DEFAULT_NETWORK_TABLE_PORT: u16 = 5810;

impl ParametersView {
    /// The parameters where nothing is configured: one family, `Tag16H5`;
    /// sharpening 8, decimation 16; the colour bounds wide open; telemetry
    /// on this machine; the first camera.
    pub open spec fn unconfigured() -> ParametersView {
        ParametersView {
            families: seq![AprilTagFamily::Tag16H5],
            sharpening: DEFAULT_SHARPENING,
            decimation: DEFAULT_DECIMATION,
            min_decision_margin: DEFAULT_MIN_DECISION_MARGIN,
            color: ColorBounds { rmin: 0, rmax: 255, gmin: 0, gmax: 255, bmin: 0, bmax: 255 },
            network_table_addr: "127.0.0.1"@,
            network_table_port: DEFAULT_NETWORK_TABLE_PORT,
            camera_index: 0,
        }
    }
}

impl RecordView {
    /// The parameters that the record stands for. Its numbers are read
    /// first, sharpening, then decimation, then the least margin; then the
    /// rules are applied.
    pub open spec fn read(self) -> Result<ParametersView, ParameterError> {
        match (
            spec_micro_from_bits(self.sharpening),
            spec_micro_from_bits(self.decimation),
            spec_micro_from_bits(self.min_decision_margin),
        ) {
            (None, _, _) => Err(ParameterError::Unreadable(Tunable::Sharpening)),
            (Some(_), None, _) => Err(ParameterError::Unreadable(Tunable::Decimation)),
            (Some(_), Some(_), None) => Err(
                ParameterError::Unreadable(Tunable::MinDecisionMargin),
            ),
            (Some(sharpening), Some(decimation), Some(min_decision_margin)) => {
                let contents = ParametersView {
                    families: self.families,
                    sharpening,
                    decimation,
                    min_decision_margin,
                    color: self.color,
                    network_table_addr: self.network_table_addr,
                    network_table_port: self.network_table_port,
                    camera_index: self.camera_index,
                };
                match contents.fault() {
                    Some(error) => Err(error),
                    None => Ok(contents),
                }
            },
        }
    }

    /// The record is what `contents` are written as: each real number as
    /// the nearest double, everything else as it is.
    pub open spec fn is_record_of(self, contents: ParametersView) -> bool {
        &&& self.families == contents.families
        &&& is_written_as(contents.sharpening, self.sharpening)
        &&& is_written_as(contents.decimation, self.decimation)
        &&& is_written_as(contents.min_decision_margin, self.min_decision_margin)
        &&& self.color == contents.color
        &&& self.network_table_addr == contents.network_table_addr
        &&& self.network_table_port == contents.network_table_port
        &&& self.camera_index == contents.camera_index
    }
}

impl ParametersView {
    /// The real numbers are small enough to be written as doubles and read
    /// back without loss: none is beyond two to the fifty-first millionths.
    pub open spec fn is_writable(self) -> bool {
        &&& magnitude_of(self.sharpening) <= 0x8_0000_0000_0000
        &&& magnitude_of(self.decimation) <= 0x8_0000_0000_0000
        &&& magnitude_of(self.min_decision_margin) <= 0x8_0000_0000_0000
    }
}

/// Parameters that are written to a record and read back from it are the
/// parameters that were written, as long as their numbers are writable.
pub proof fn lemma_record_reads_back(contents: ParametersView, record: RecordView)
    requires
        contents.is_valid(),
        contents.is_writable(),
        record.is_record_of(contents),
    ensures
        record.read() == Ok::<ParametersView, ParameterError>(contents),
{
    lemma_written_number_reads_back(contents.sharpening, record.sharpening);
    lemma_written_number_reads_back(contents.decimation, record.decimation);
    lemma_written_number_reads_back(contents.min_decision_margin, record.min_decision_margin);
}

/// Contents that meet the rules are never turned down: parameters built
/// again from what they hold are accepted.
pub proof fn lemma_valid_contents_are_accepted(contents: ParametersView)
    ensures
        contents.fault() is None <==> contents.is_valid(),
{
}

impl View for DetectorParameters {
    type V = ParametersView;

    closed spec fn view(&self) -> ParametersView {
        ParametersView {
            families: self.families@,
            sharpening: self.sharpening,
            decimation: self.decimation,
            min_decision_margin: self.min_decision_margin,
            color: self.color,
            network_table_addr: self.network_table_addr@,
            network_table_port: self.network_table_port,
            camera_index: self.camera_index,
        }
    }
}

impl DetectorParameters {
    #[verifier::type_invariant]
    spec fn well_formed(self) -> bool {
        self.families@.len() > 0 && self.decimation >= MICRO
    }

    /// Parameters with the given contents, unless they break a rule.
    pub fn new(
        families: Vec<AprilTagFamily>,
        sharpening: i64,
        decimation: i64,
        min_decision_margin: i64,
        color: ColorBounds,
        network_table_addr: String,
        network_table_port: u16,
        camera_index: u32,
    ) -> (r: Result<Self, ParameterError>)
        ensures
            match r {
                Ok(parameters) => parameters@.is_valid() && parameters@ == (ParametersView {
                    families: families@,
                    sharpening,
                    decimation,
                    min_decision_margin,
                    color,
                    network_table_addr: network_table_addr@,
                    network_table_port,
                    camera_index,
                }),
                Err(error) => Some(error) == (ParametersView {
                    families: families@,
                    sharpening,
                    decimation,
                    min_decision_margin,
                    color,
                    network_table_addr: network_table_addr@,
                    network_table_port,
                    camera_index,
                }).fault(),
            },
    {
        if families.len() == 0 {
            return Err(ParameterError::NoFamilies);
        }
        if decimation < MICRO {
            return Err(ParameterError::DecimationBelowOne);
        }
        Ok(
            DetectorParameters {
                families,
                sharpening,
                decimation,
                min_decision_margin,
                color,
                network_table_addr,
                network_table_port,
                camera_index,
            },
        )
    }

    /// The parameters that a record of the parameter file stands for.
    pub fn from_record(record: ParameterRecord) -> (r: Result<Self, ParameterError>)
        ensures
            match r {
                Ok(parameters) => record@.read() == Ok::<ParametersView, ParameterError>(
                    parameters@,
                ),
                Err(error) => record@.read() == Err::<ParametersView, ParameterError>(error),
            },
    {
        let sharpening: i64 = match micro_from_bits(record.sharpening) {
            Some(number) => number,
            None => {
                return Err(ParameterError::Unreadable(Tunable::Sharpening));
            },
        };
        let decimation: i64 = match micro_from_bits(record.decimation) {
            Some(number) => number,
            None => {
                return Err(ParameterError::Unreadable(Tunable::Decimation));
            },
        };
        let min_decision_margin: i64 = match micro_from_bits(record.min_decision_margin) {
            Some(number) => number,
            None => {
                return Err(ParameterError::Unreadable(Tunable::MinDecisionMargin));
            },
        };
        Self::new(
            record.families,
            sharpening,
            decimation,
            min_decision_margin,
            record.color,
            record.network_table_addr,
            record.network_table_port,
            record.camera_index,
        )
    }

    /// The parameters as a record for the parameter file.
    pub fn to_record(&self) -> (record: ParameterRecord)
        ensures
            record@.is_record_of(self@),
    {
        let copy = self.clone();
        ParameterRecord {
            families: copy.families,
            sharpening: bits_from_micro(self.sharpening),
            decimation: bits_from_micro(self.decimation),
            min_decision_margin: bits_from_micro(self.min_decision_margin),
            color: self.color,
            network_table_addr: copy.network_table_addr,
            network_table_port: self.network_table_port,
            camera_index: self.camera_index,
        }
    }

    /// The marker families to look for.
    pub fn families(&self) -> (families: &Vec<AprilTagFamily>)
        ensures
            families@ == self@.families,
            families@.len() > 0,
    {
        proof {
            use_type_invariant(self);
        }
        &self.families
    }

    /// Sharpening applied to decoded images.
    pub fn sharpening(&self) -> (r: i64)
        ensures
            r == self@.sharpening,
    {
        self.sharpening
    }

    /// Factor by which frames are shrunk before quads are looked for.
    pub fn decimation(&self) -> (r: i64)
        ensures
            r == self@.decimation,
            r >= MICRO,
    {
        proof {
            use_type_invariant(self);
        }
        self.decimation
    }

    /// Least decision margin of a candidate that counts.
    pub fn min_decision_margin(&self) -> (r: i64)
        ensures
            r == self@.min_decision_margin,
    {
        self.min_decision_margin
    }

    /// The colour bounds.
    pub fn color(&self) -> (r: ColorBounds)
        ensures
            r == self@.color,
    {
        self.color
    }

    /// Address of the telemetry server.
    pub fn network_table_addr(&self) -> (r: &str)
        ensures
            r@ == self@.network_table_addr,
    {
        self.network_table_addr.as_str()
    }

    /// Port of the telemetry server.
    pub fn network_table_port(&self) -> (r: u16)
        ensures
            r == self@.network_table_port,
    {
        self.network_table_port
    }

    /// Which camera to open.
    pub fn camera_index(&self) -> (r: u32)
        ensures
            r == self@.camera_index,
    {
        self.camera_index
    }

    /// The same parameters with other detector tunables, as the command
    /// line may ask; turned down where the decimation is below one.
    pub fn with_tunables(self, sharpening: i64, decimation: i64) -> (r: Result<
        Self,
        ParameterError,
    >)
        ensures
            match r {
                Ok(parameters) => decimation >= MICRO && parameters@ == (ParametersView {
                    sharpening,
                    decimation,
                    ..self@
                }),
                Err(error) => decimation < MICRO && error == ParameterError::DecimationBelowOne,
            },
    {
        proof {
            use_type_invariant(&self);
        }
        if decimation < MICRO {
            return Err(ParameterError::DecimationBelowOne);
        }
        let mut parameters = self;
        parameters.sharpening = sharpening;
        parameters.decimation = decimation;
        Ok(parameters)
    }
}

impl Clone for DetectorParameters {
    fn clone(&self) -> (copy: Self)
        ensures
            copy@ == self@,
    {
        proof {
            use_type_invariant(self);
        }
        let mut families: Vec<AprilTagFamily> = Vec::new();
        let mut i: usize = 0;
        while i < self.families.len()
            invariant
                i <= self.families.len(),
                families@ == self.families@.take(i as int),
            decreases self.families.len() - i,
        {
            families.push(self.families[i]);
            assert(self.families@.take(i + 1) =~= self.families@.take(i as int).push(
                self.families@[i as int],
            ));
            i = i + 1;
        }
        assert(self.families@.take(self.families.len() as int) =~= self.families@);
        DetectorParameters {
            families,
            sharpening: self.sharpening,
            decimation: self.decimation,
            min_decision_margin: self.min_decision_margin,
            color: self.color,
            network_table_addr: self.network_table_addr.clone(),
            network_table_port: self.network_table_port,
            camera_index: self.camera_index,
        }
    }
}

impl Default for DetectorParameters {
    fn default() -> (parameters: Self)
        ensures
            parameters@ == ParametersView::unconfigured(),
    {
        let mut families: Vec<AprilTagFamily> = Vec::new();
        families.push(AprilTagFamily::Tag16H5);
        let parameters = DetectorParameters {
            families,
            sharpening: DEFAULT_SHARPENING,
            decimation: DEFAULT_DECIMATION,
            min_decision_margin: DEFAULT_MIN_DECISION_MARGIN,
            color: ColorBounds { rmin: 0, rmax: 255, gmin: 0, gmax: 255, bmin: 0, bmax: 255 },
            network_table_addr: "127.0.0.1".to_owned(),
            network_table_port: DEFAULT_NETWORK_TABLE_PORT,
            camera_index: 0,
        };
        assert(parameters.families@ =~= seq![AprilTagFamily::Tag16H5]);
        parameters
    }
}

} // verus!

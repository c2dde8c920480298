//! The camera calibration of a run: the intrinsic matrix, the distortion
//! coefficients, the per-image rotation and translation vectors of the
//! calibration, and the marker size.
//!
//! The library stores these numbers and hands them on; it never computes
//! with them. Each is held as the bit pattern of the double-precision number
//! read from the calibration file, so that nothing is lost on the way.

use vstd::prelude::*;
use vstd::string::StringExecFns;
use crate::text::{decimal_digits, decimal_string};

verus! {

/// The error type of `std::io`.
#[verifier::external_type_specification]
#[verifier::external_body]
pub struct ExIoError(std::io::Error);

/// What can go wrong with a calibration.
#[derive(Debug)]
pub enum CalibrationError {
    /// The stored numbers do not have the shape that was asked for.
    ConversionError(String),
    /// The calibration file could not be read.
    IoError(std::io::Error),
    /// The calibration file does not hold a calibration.
    LoadError(String),
}

pub type CalibrationResult<T> = Result<T, CalibrationError>;

impl CalibrationError {
    /// The text of the error, as far as the library words it: what an I/O
    /// error says is up to the system.
    pub open spec fn has_message(self, message: Seq<char>) -> bool {
        match self {
            CalibrationError::ConversionError(text) => message
                == "Failed to convert into projection matrix: "@ + text@,
            CalibrationError::IoError(_) => true,
            CalibrationError::LoadError(text) => message == "Failed to load file: "@ + text@,
        }
    }

    /// The error in words.
    pub fn message(&self) -> (message: String)
        ensures
            self.has_message(message@),
    {
        match self {
            CalibrationError::ConversionError(text) => {
                let mut message: String = String::from_str(
                    "Failed to convert into projection matrix: ",
                );
                message.append(text.as_str());
                message
            },
            CalibrationError::IoError(error) => error.to_string(),
            CalibrationError::LoadError(text) => {
                let mut message: String = String::from_str("Failed to load file: ");
                message.append(text.as_str());
                message
            },
        }
    }
}

/// The camera parameters that pose estimation takes.
#[derive(Clone, Copy, Debug, PartialEq, Eq)]
pub struct TagParameters {
    pub cx: u64,
    pub cy: u64,
    pub fx: u64,
    pub fy: u64,
    pub tagsize: u64,
}

/// The camera calibration of a run.
#[derive(Clone, Debug)]
pub struct CameraCalibration {
    mtx: Vec<Vec<u64>>,
    dist: Vec<Vec<u64>>,
    rvecs: Vec<Vec<Vec<u64>>>,
    tvecs: Vec<Vec<Vec<u64>>>,
    fx: u64,
    fy: u64,
    cx: u64,
    cy: u64,
    tagsize: u64,
}

/// What a calibration holds.
pub struct CalibrationView {
    /// Rows of the intrinsic matrix.
    pub mtx: Seq<Seq<u64>>,
    /// Rows of distortion coefficients.
    pub dist: Seq<Seq<u64>>,
    /// One rotation vector per calibration image, each in rows.
    pub rvecs: Seq<Seq<Seq<u64>>>,
    /// One translation vector per calibration image, each in rows.
    pub tvecs: Seq<Seq<Seq<u64>>>,
    pub fx: u64,
    pub fy: u64,
    pub cx: u64,
    pub cy: u64,
    pub tagsize: u64,
}

impl CalibrationView {
    /// The calibration before anything was loaded: one empty row in each
    /// table, and zeros.
    pub open spec fn unloaded() -> CalibrationView {
        CalibrationView {
            mtx: seq![Seq::<u64>::empty()],
            dist: seq![Seq::<u64>::empty()],
            rvecs: seq![seq![Seq::<u64>::empty()]],
            tvecs: seq![seq![Seq::<u64>::empty()]],
            fx: 0,
            fy: 0,
            cx: 0,
            cy: 0,
            tagsize: 0,
        }
    }
}

impl View for CameraCalibration {
    type V = CalibrationView;

    closed spec fn view(&self) -> CalibrationView {
        CalibrationView {
            mtx: self.mtx.deep_view(),
            dist: self.dist.deep_view(),
            rvecs: self.rvecs.deep_view(),
            tvecs: self.tvecs.deep_view(),
            fx: self.fx,
            fy: self.fy,
            cx: self.cx,
            cy: self.cy,
            tagsize: self.tagsize,
        }
    }
}

/// The message for a vector or matrix that does not have `expected` elements.
pub open spec fn wrong_count_message(what: Seq<char>, got: nat, expected: nat) -> Seq<char> {
    "Incorrect number of elements for "@ + what + ", got "@ + decimal_digits(got)
        + " expected "@ + decimal_digits(expected)
}

/// `error` is the conversion error for a vector or matrix that does not have
/// `expected` elements.
pub open spec fn is_wrong_count(
    error: CalibrationError,
    what: Seq<char>,
    got: nat,
    expected: nat,
) -> bool {
    error matches CalibrationError::ConversionError(text) && text@ == wrong_count_message(
        what,
        got,
        expected,
    )
}

fn wrong_count(what: &str, got: usize, expected: usize) -> (e: CalibrationError)
    ensures
        is_wrong_count(e, what@, got as nat, expected as nat),
{
    let mut text: String = String::from_str("Incorrect number of elements for ");
    text.append(what);
    text.append(", got ");
    text.append(decimal_string(got).as_str());
    text.append(" expected ");
    text.append(decimal_string(expected).as_str());
    CalibrationError::ConversionError(text)
}

/// Joins the rows of a table into one vector, row after row.
pub fn flatten_rows(rows: &Vec<Vec<u64>>) -> (flat: Vec<u64>)
    ensures
        flat@ == rows.deep_view().flatten(),
{
    let mut flat: Vec<u64> = Vec::new();
    let mut i: usize = 0;
    while i < rows.len()
        invariant
            i <= rows.len(),
            flat@ == rows.deep_view().take(i as int).flatten(),
        decreases rows.len() - i,
    {
        let row = &rows[i];
        let ghost before = flat@;
        let mut j: usize = 0;
        while j < row.len()
            invariant
                j <= row.len(),
                flat@ == before + row@.take(j as int),
            decreases row.len() - j,
        {
            flat.push(row[j]);
            assert(row@.take(j + 1) =~= row@.take(j as int).push(row@[j as int]));
            j = j + 1;
        }
        proof {
            let table = rows.deep_view();
            assert(row@.take(row.len() as int) =~= row@);
            assert(row.deep_view() =~= row@);
            assert(table.take(i + 1) =~= table.take(i as int).push(table[i as int]));
            table.take(i as int).lemma_flatten_push(table[i as int]);
        }
        i = i + 1;
    }
    assert(rows.deep_view().take(rows.len() as int) =~= rows.deep_view());
    flat
}

/// Among per-image vectors, `k` is the first that does not hold `width`
/// numbers.
pub open spec fn is_first_misshapen(entries: Seq<Seq<Seq<u64>>>, width: nat, k: int) -> bool {
    &&& 0 <= k < entries.len()
    &&& entries[k].flatten().len() != width
    &&& forall|i: int| 0 <= i < k ==> (#[trigger] entries[i]).flatten().len() == width
}

/// Every per-image vector holds `width` numbers.
pub open spec fn all_shaped(entries: Seq<Seq<Seq<u64>>>, width: nat) -> bool {
    forall|i: int| 0 <= i < entries.len() ==> (#[trigger] entries[i]).flatten().len() == width
}

/// `vectors` holds the per-image vectors of `entries`, each joined into three
/// numbers.
pub open spec fn are_vectors_of(vectors: Seq<[u64; 3]>, entries: Seq<Seq<Seq<u64>>>) -> bool {
    &&& vectors.len() == entries.len()
    &&& forall|i: int| 0 <= i < entries.len() ==> (#[trigger] vectors[i])@ == entries[i].flatten()
}

/// `error` reports that the first misshapen vector of `entries` does not hold
/// three numbers.
pub open spec fn reports_misshapen(
    error: CalibrationError,
    what: Seq<char>,
    entries: Seq<Seq<Seq<u64>>>,
) -> bool {
    exists|k: int|
        #[trigger] is_first_misshapen(entries, 3, k) && is_wrong_count(
            error,
            what,
            entries[k].flatten().len(),
            3,
        )
}

fn vectors_of(entries: &Vec<Vec<Vec<u64>>>, what: &str) -> (r: CalibrationResult<Vec<[u64; 3]>>)
    ensures
        r is Ok <==> all_shaped(entries.deep_view(), 3),
        r matches Ok(vectors) ==> are_vectors_of(vectors@, entries.deep_view()),
        r matches Err(error) ==> reports_misshapen(error, what@, entries.deep_view()),
{
    let mut vectors: Vec<[u64; 3]> = Vec::new();
    let mut i: usize = 0;
    while i < entries.len()
        invariant
            i <= entries.len(),
            vectors@.len() == i,
            forall|k: int|
                0 <= k < i ==> (#[trigger] vectors@[k])@ == entries.deep_view()[k].flatten(),
            forall|k: int|
                0 <= k < i ==> (#[trigger] entries.deep_view()[k]).flatten().len() == 3,
        decreases entries.len() - i,
    {
        let folded: Vec<u64> = flatten_rows(&entries[i]);
        assert(entries.deep_view()[i as int] == entries@[i as int].deep_view());
        if folded.len() != 3 {
            assert(is_first_misshapen(entries.deep_view(), 3, i as int));
            return Err(wrong_count(what, folded.len(), 3));
        }
        let vector: [u64; 3] = [folded[0], folded[1], folded[2]];
        assert(vector@ =~= folded@);
        vectors.push(vector);
        i = i + 1;
    }
    Ok(vectors)
}

impl CameraCalibration {
    /// A calibration with the given contents.
    pub fn new(
        mtx: Vec<Vec<u64>>,
        dist: Vec<Vec<u64>>,
        rvecs: Vec<Vec<Vec<u64>>>,
        tvecs: Vec<Vec<Vec<u64>>>,
        fx: u64,
        fy: u64,
        cx: u64,
        cy: u64,
        tagsize: u64,
    ) -> (calibration: Self)
        ensures
            calibration@ == (CalibrationView {
                mtx: mtx.deep_view(),
                dist: dist.deep_view(),
                rvecs: rvecs.deep_view(),
                tvecs: tvecs.deep_view(),
                fx,
                fy,
                cx,
                cy,
                tagsize,
            }),
    {
        CameraCalibration { mtx, dist, rvecs, tvecs, fx, fy, cx, cy, tagsize }
    }

    /// Focal length along x, in pixels.
    pub fn fx(&self) -> (r: u64)
        ensures
            r == self@.fx,
    {
        self.fx
    }

    /// Focal length along y, in pixels.
    pub fn fy(&self) -> (r: u64)
        ensures
            r == self@.fy,
    {
        self.fy
    }

    /// Principal point along x, in pixels.
    pub fn cx(&self) -> (r: u64)
        ensures
            r == self@.cx,
    {
        self.cx
    }

    /// Principal point along y, in pixels.
    pub fn cy(&self) -> (r: u64)
        ensures
            r == self@.cy,
    {
        self.cy
    }

    /// Side of a marker, in metres.
    pub fn tagsize(&self) -> (r: u64)
        ensures
            r == self@.tagsize,
    {
        self.tagsize
    }

    /// Rows of the intrinsic matrix, as stored.
    pub fn mtx_rows(&self) -> (rows: &Vec<Vec<u64>>)
        ensures
            rows.deep_view() == self@.mtx,
    {
        &self.mtx
    }

    /// Rows of distortion coefficients, as stored.
    pub fn dist_rows(&self) -> (rows: &Vec<Vec<u64>>)
        ensures
            rows.deep_view() == self@.dist,
    {
        &self.dist
    }

    /// Rotation vectors, as stored.
    pub fn rvec_rows(&self) -> (rows: &Vec<Vec<Vec<u64>>>)
        ensures
            rows.deep_view() == self@.rvecs,
    {
        &self.rvecs
    }

    /// Translation vectors, as stored.
    pub fn tvec_rows(&self) -> (rows: &Vec<Vec<Vec<u64>>>)
        ensures
            rows.deep_view() == self@.tvecs,
    {
        &self.tvecs
    }

    /// The parameters that pose estimation takes.
    pub fn tag_params(&self) -> (params: TagParameters)
        ensures
            params == (TagParameters {
                cx: self@.cx,
                cy: self@.cy,
                fx: self@.fx,
                fy: self@.fy,
                tagsize: self@.tagsize,
            }),
    {
        TagParameters { cx: self.cx, cy: self.cy, fx: self.fx, fy: self.fy, tagsize: self.tagsize }
    }

    /// The distortion coefficients, row after row.
    pub fn dist(&self) -> (coefficients: Vec<u64>)
        ensures
            coefficients@ == self@.dist.flatten(),
    {
        flatten_rows(&self.dist)
    }

    /// The rotation vector of each calibration image. Fails at the first
    /// that does not hold three numbers.
    pub fn rvecs(&self) -> (r: CalibrationResult<Vec<[u64; 3]>>)
        ensures
            r is Ok <==> all_shaped(self@.rvecs, 3),
            r matches Ok(vectors) ==> are_vectors_of(vectors@, self@.rvecs),
            r matches Err(error) ==> reports_misshapen(error, "rvecs"@, self@.rvecs),
    {
        vectors_of(&self.rvecs, "rvecs")
    }

    /// The translation vector of each calibration image. Fails at the first
    /// that does not hold three numbers.
    pub fn tvecs(&self) -> (r: CalibrationResult<Vec<[u64; 3]>>)
        ensures
            r is Ok <==> all_shaped(self@.tvecs, 3),
            r matches Ok(vectors) ==> are_vectors_of(vectors@, self@.tvecs),
            r matches Err(error) ==> reports_misshapen(error, "tvecs"@, self@.tvecs),
    {
        vectors_of(&self.tvecs, "tvecs")
    }

    /// The nine entries of the intrinsic matrix, row after row, from which
    /// the projection is built. Fails where the matrix does not hold nine
    /// numbers.
    pub fn projection_mtx(&self) -> (r: CalibrationResult<[u64; 9]>)
        ensures
            r is Ok <==> self@.mtx.flatten().len() == 9,
            r matches Ok(entries) ==> entries@ == self@.mtx.flatten(),
            r matches Err(error) ==> is_wrong_count(error, "mtx"@, self@.mtx.flatten().len(), 9),
    {
        let flat: Vec<u64> = flatten_rows(&self.mtx);
        if flat.len() != 9 {
            return Err(wrong_count("mtx", flat.len(), 9));
        }
        let entries: [u64; 9] = [
            flat[0],
            flat[1],
            flat[2],
            flat[3],
            flat[4],
            flat[5],
            flat[6],
            flat[7],
            flat[8],
        ];
        assert(entries@ =~= flat@);
        Ok(entries)
    }
}

impl Default for CameraCalibration {
    fn default() -> (calibration: Self)
        ensures
            calibration@ == CalibrationView::unloaded(),
    {
        let mut mtx: Vec<Vec<u64>> = Vec::new();
        mtx.push(Vec::new());
        let mut dist: Vec<Vec<u64>> = Vec::new();
        dist.push(Vec::new());
        let mut rvec: Vec<Vec<u64>> = Vec::new();
        rvec.push(Vec::new());
        let mut rvecs: Vec<Vec<Vec<u64>>> = Vec::new();
        rvecs.push(rvec);
        let mut tvec: Vec<Vec<u64>> = Vec::new();
        tvec.push(Vec::new());
        let mut tvecs: Vec<Vec<Vec<u64>>> = Vec::new();
        tvecs.push(tvec);
        let calibration = CameraCalibration {
            mtx,
            dist,
            rvecs,
            tvecs,
            fx: 0,
            fy: 0,
            cx: 0,
            cy: 0,
            tagsize: 0,
        };
        proof {
            assert(calibration.mtx.deep_view() =~~= seq![Seq::<u64>::empty()]);
            assert(calibration.dist.deep_view() =~~= seq![Seq::<u64>::empty()]);
            assert(calibration.rvecs.deep_view() =~~= seq![seq![Seq::<u64>::empty()]]);
            assert(calibration.tvecs.deep_view() =~~= seq![seq![Seq::<u64>::empty()]]);
        }
        calibration
    }
}

} // verus!

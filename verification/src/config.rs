//! What a run is configured with.

use vstd::prelude::*;

verus! {

/// A frame sampling rate in frames per second.
///
/// The rate is a binary floating-point number, which the library holds by its
/// bits and compares by them; its two written forms come with it.
pub struct SampleRate {
    /// The IEEE 754 binary64 bits of the rate.
    pub bits: u64,
    /// The rate as plain decimal text, as messages and the detection helper get it.
    pub text: String,
    /// The rate as a JSON value, as the report holds it.
    pub json: serde_json::Value,
}

/// The bits of positive infinity: those of the positive numbers are the ones
/// above zero up to here.
pub const POSITIVE_INFINITY_BITS: u64 = 0x7ff0_0000_0000_0000;

/// The bits of negative zero: those of the negative numbers start behind it.
pub const NEGATIVE_ZERO_BITS: u64 = 0x8000_0000_0000_0000;

/// The bits of negative infinity, the last of the negative numbers.
pub const NEGATIVE_INFINITY_BITS: u64 = 0xfff0_0000_0000_0000;

impl SampleRate {
    /// Whether the rate is greater than zero. What is no number is not.
    pub open spec fn is_positive(self) -> bool {
        0 < self.bits <= POSITIVE_INFINITY_BITS
    }

    /// Whether the rate is zero or less. What is no number is not.
    pub open spec fn is_at_most_zero(self) -> bool {
        self.bits == 0 || NEGATIVE_ZERO_BITS <= self.bits <= NEGATIVE_INFINITY_BITS
    }

    /// Whether the rate is greater than zero.
    pub fn positive(&self) -> (yes: bool)
        ensures
            yes == self.is_positive(),
    {
        0 < self.bits && self.bits <= POSITIVE_INFINITY_BITS
    }

    /// Whether the rate is zero or less.
    pub fn at_most_zero(&self) -> (yes: bool)
        ensures
            yes == self.is_at_most_zero(),
    {
        self.bits == 0 || (NEGATIVE_ZERO_BITS <= self.bits && self.bits <= NEGATIVE_INFINITY_BITS)
    }
}

/// The face detectors that the detection helper knows.
pub enum FaceDetectorKind {
    Yunet,
    ResnetSsd,
}

impl FaceDetectorKind {
    /// The name by which the detection helper knows the detector.
    pub open spec fn spec_name(self) -> Seq<char> {
        match self {
            FaceDetectorKind::Yunet => "yunet"@,
            FaceDetectorKind::ResnetSsd => "resnet_ssd"@,
        }
    }

    /// The name by which the detection helper knows the detector.
    pub fn name(&self) -> (name: &'static str)
        ensures
            name@ == self.spec_name(),
    {
        match self {
            FaceDetectorKind::Yunet => "yunet",
            FaceDetectorKind::ResnetSsd => "resnet_ssd",
        }
    }
}

/// The vision-language model server that face crops are sent to.
pub struct VideoAnalysisVlmConfig {
    /// The address of an OpenAI-compatible server, without a path.
    pub base_url: String,
    /// The model that the server is asked for.
    pub model: String,
    /// A bearer token, where the server wants one.
    pub api_key: Option<String>,
    /// How long one request may take, in seconds.
    pub timeout_secs: u64,
}

/// The `[video_analysis]` section of the configuration.
pub struct VideoAnalysisConfig {
    /// The sampling rate of a run that names none of its own.
    pub sample_fps: SampleRate,
    /// Where reports are written.
    pub output_dir: String,
    pub face_detector: FaceDetectorKind,
    /// Where the detector weights are.
    pub models_dir: String,
    /// The Python interpreter that runs the detection helper.
    pub python_bin: String,
    pub vlm: VideoAnalysisVlmConfig,
}

/// Law: a rate compares with zero as its sign, exponent and fraction have it. A
/// number whose exponent is all ones and whose fraction is not zero is none, and
/// stands on neither side.
pub proof fn rates_compare_by_sign_exponent_and_fraction(rate: SampleRate)
    ensures
        ({
            let negative = rate.bits / 0x8000_0000_0000_0000 == 1;
            let exponent = rate.bits / 0x10_0000_0000_0000 % 2048;
            let fraction = rate.bits % 0x10_0000_0000_0000;
            let no_number = exponent == 2047 && fraction != 0;
            let zero = exponent == 0 && fraction == 0;
            &&& rate.is_positive() <==> !no_number && !zero && !negative
            &&& rate.is_at_most_zero() <==> !no_number && (zero || negative)
        }),
{
}

/// Law: each detector goes by the name that the configuration and the helper use.
pub proof fn detectors_go_by_their_names()
    ensures
        FaceDetectorKind::Yunet.spec_name() == "yunet"@,
        FaceDetectorKind::ResnetSsd.spec_name() == "resnet_ssd"@,
{
}

} // verus!

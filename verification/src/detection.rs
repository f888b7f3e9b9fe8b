//! The local face detection: how its helper is called, what it reports, and how
//! its failures are worded.

use vstd::prelude::*;

use crate::config::FaceDetectorKind;
use crate::text;

verus! {

/// The least confidence with which a face crop is kept, as the helper reads it.
pub const MIN_FACE_CONFIDENCE: &'static str = "0.6";

/// One face crop within a sample.
#[derive(Debug)]
pub struct DetectedFace {
    pub face_id: u32,
    pub crop_path: String,
}

/// One sampled frame that contained at least one face.
#[derive(Debug)]
pub struct DetectionSample {
    pub timestamp: String,
    pub faces: Vec<DetectedFace>,
}

/// What the helper reports of a video.
#[derive(Debug)]
pub struct DetectionManifest {
    pub detector_used: String,
    pub detector_note: Option<String>,
    pub frames_sampled: u64,
    pub frames_with_faces: u64,
    pub samples: Vec<DetectionSample>,
}

/// One argument of the helper's command line. Paths are named by their part, as
/// they need not be text.
pub enum HelperArgument {
    /// The helper's own file.
    Script,
    /// The video.
    Video,
    /// The directory of the detector weights.
    ModelsDir,
    /// The directory that the face crops go to.
    CropsDir,
    Text(String),
}

/// A `HelperArgument` with its text as a sequence.
pub enum HelperArgumentView {
    Script,
    Video,
    ModelsDir,
    CropsDir,
    Text(Seq<char>),
}

impl View for HelperArgument {
    type V = HelperArgumentView;

    open spec fn view(&self) -> HelperArgumentView {
        match self {
            HelperArgument::Script => HelperArgumentView::Script,
            HelperArgument::Video => HelperArgumentView::Video,
            HelperArgument::ModelsDir => HelperArgumentView::ModelsDir,
            HelperArgument::CropsDir => HelperArgumentView::CropsDir,
            HelperArgument::Text(text) => HelperArgumentView::Text(text@),
        }
    }
}

/// The helper's command line for a detector and a sampling rate.
pub open spec fn helper_command(detector: Seq<char>, fps: Seq<char>) -> Seq<HelperArgumentView> {
    seq![
        HelperArgumentView::Script,
        HelperArgumentView::Text("--video"@),
        HelperArgumentView::Video,
        HelperArgumentView::Text("--fps"@),
        HelperArgumentView::Text(fps),
        HelperArgumentView::Text("--detector"@),
        HelperArgumentView::Text(detector),
        HelperArgumentView::Text("--models-dir"@),
        HelperArgumentView::ModelsDir,
        HelperArgumentView::Text("--out-dir"@),
        HelperArgumentView::CropsDir,
        HelperArgumentView::Text("--min-confidence"@),
        HelperArgumentView::Text(MIN_FACE_CONFIDENCE@),
    ]
}

/// The helper's command line for a detector and a sampling rate.
pub(crate) fn helper_arguments_for(detector: &FaceDetectorKind, fps: &str) -> (arguments: Vec<
    HelperArgument,
>)
    ensures
        arguments@.map_values(|argument: HelperArgument| argument@) == helper_command(
            detector.spec_name(),
            fps@,
        ),
{
    vec![
        HelperArgument::Script,
        HelperArgument::Text("--video".to_owned()),
        HelperArgument::Video,
        HelperArgument::Text("--fps".to_owned()),
        HelperArgument::Text(fps.to_owned()),
        HelperArgument::Text("--detector".to_owned()),
        HelperArgument::Text(detector.name().to_owned()),
        HelperArgument::Text("--models-dir".to_owned()),
        HelperArgument::ModelsDir,
        HelperArgument::Text("--out-dir".to_owned()),
        HelperArgument::CropsDir,
        HelperArgument::Text("--min-confidence".to_owned()),
        HelperArgument::Text(MIN_FACE_CONFIDENCE.to_owned()),
    ]
}

/// How the helper's process ended.
pub struct HelperExit {
    /// Whether the process reported success.
    pub success: bool,
    /// The exit status in words.
    pub status: String,
    pub stdout: Vec<u8>,
    pub stderr: Vec<u8>,
}

/// Why there is no manifest.
pub enum HelperFailure {
    /// The helper could not be written to the work directory.
    Staging(String),
    /// The directory for the crops could not be created.
    CropsDir(String),
    /// The interpreter could not be started.
    Launch(String),
    /// The helper ended without success.
    Exit { status: String, stderr: Vec<u8> },
    /// The helper's output is no manifest.
    Manifest(String),
}

/// What a process wrote, read as UTF-8 with every malformed part replaced, as
/// `String::from_utf8_lossy` reads it.
pub uninterp spec fn lossy_utf8(bytes: Seq<u8>) -> Seq<char>;

/// Calls `String::from_utf8_lossy`. Bytes that are UTF-8 are read as such; what
/// becomes of others is a function of the bytes.
#[verifier::external_body]
fn lossy_text(bytes: &Vec<u8>) -> (text: String)
    ensures
        text@ == lossy_utf8(bytes@),
        vstd::utf8::valid_utf8(bytes@) ==> text@ == vstd::utf8::decode_utf8(bytes@),
{
    String::from_utf8_lossy(bytes).into_owned()
}

impl HelperFailure {
    /// What the user is told, where the error output reads as `stderr_text`.
    pub open spec fn message_with(self, python_bin: Seq<char>, stderr_text: Seq<char>) -> Seq<char> {
        match self {
            HelperFailure::Staging(error) => "failed to stage detection helper: "@ + error@,
            HelperFailure::CropsDir(error) => "failed to create crop directory: "@ + error@,
            HelperFailure::Launch(error) => "failed to launch face-detection helper via '"@
                + python_bin + "': "@ + error@
                + ". Set video_analysis.python_bin to a Python 3 interpreter with opencv-python-headless installed."@
                + " Install it with: python3 -m pip install opencv-python-headless"@,
            HelperFailure::Exit { status, stderr } => "face detection failed ("@ + status@ + "): "@
                + text::trimmed(stderr_text),
            HelperFailure::Manifest(error) => "face-detection helper produced invalid manifest: "@
                + error@,
        }
    }

    /// The bytes of the error output: none but for a helper that failed.
    pub open spec fn error_output(self) -> Seq<u8> {
        match self {
            HelperFailure::Exit { status, stderr } => stderr@,
            _ => Seq::<u8>::empty(),
        }
    }

    /// What the user is told.
    pub open spec fn spec_message(self, python_bin: Seq<char>) -> Seq<char> {
        self.message_with(python_bin, lossy_utf8(self.error_output()))
    }

    /// What the user is told, where the error output reads as `stderr_text`.
    pub fn message_reading(&self, python_bin: &str, stderr_text: &str) -> (message: String)
        ensures
            message@ == self.message_with(python_bin@, stderr_text@),
    {
        match self {
            HelperFailure::Staging(error) => {
                "failed to stage detection helper: ".to_owned().concat(error.as_str())
            },
            HelperFailure::CropsDir(error) => {
                "failed to create crop directory: ".to_owned().concat(error.as_str())
            },
            HelperFailure::Launch(error) => {
                let mut message = "failed to launch face-detection helper via '".to_owned();
                message.append(python_bin);
                message.append("': ");
                message.append(error.as_str());
                message.append(
                    ". Set video_analysis.python_bin to a Python 3 interpreter with opencv-python-headless installed.",
                );
                message.append(" Install it with: python3 -m pip install opencv-python-headless");
                message
            },
            HelperFailure::Exit { status, stderr: _ } => {
                let mut message = "face detection failed (".to_owned();
                message.append(status.as_str());
                message.append("): ");
                message.append(text::trim(stderr_text));
                message
            },
            HelperFailure::Manifest(error) => {
                "face-detection helper produced invalid manifest: ".to_owned().concat(
                    error.as_str(),
                )
            },
        }
    }

    /// What the user is told.
    pub fn message(&self, python_bin: &str) -> (message: String)
        ensures
            message@ == self.spec_message(python_bin@),
            vstd::utf8::valid_utf8(self.error_output()) ==> message@ == self.message_with(
                python_bin@,
                vstd::utf8::decode_utf8(self.error_output()),
            ),
    {
        match self {
            HelperFailure::Exit { status: _, stderr } => {
                let stderr_text = lossy_text(stderr);
                self.message_reading(python_bin, stderr_text.as_str())
            },
            _ => self.message_reading(python_bin, ""),
        }
    }
}

/// What the helper wrote as its manifest: its output, where it reported success.
pub fn helper_output(exit: HelperExit) -> (output: Result<Vec<u8>, HelperFailure>)
    ensures
        match output {
            Ok(stdout) => exit.success && stdout == exit.stdout,
            Err(failure) => !exit.success && failure == (HelperFailure::Exit {
                status: exit.status,
                stderr: exit.stderr,
            }),
        },
{
    if exit.success {
        Ok(exit.stdout)
    } else {
        Err(HelperFailure::Exit { status: exit.status, stderr: exit.stderr })
    }
}

/// Law: the helper's command line. Behind the helper's own file each option is
/// followed by its value: the video, the rate, the detector, the weights, the
/// directory for the crops, and the least confidence.
pub proof fn each_option_has_its_value(detector: Seq<char>, fps: Seq<char>)
    ensures
        ({
            let command = helper_command(detector, fps);
            let option = |k: int, name: Seq<char>, value: HelperArgumentView|
                command[k] == HelperArgumentView::Text(name) && command[k + 1] == value;
            &&& command.len() == 13
            &&& command[0] == HelperArgumentView::Script
            &&& option(1, "--video"@, HelperArgumentView::Video)
            &&& option(3, "--fps"@, HelperArgumentView::Text(fps))
            &&& option(5, "--detector"@, HelperArgumentView::Text(detector))
            &&& option(7, "--models-dir"@, HelperArgumentView::ModelsDir)
            &&& option(9, "--out-dir"@, HelperArgumentView::CropsDir)
            &&& option(11, "--min-confidence"@, HelperArgumentView::Text("0.6"@))
        }),
{
}

/// Law: an argument is seen as what it is, with its whole text.
pub proof fn arguments_are_seen_whole(text: String)
    ensures
        HelperArgument::Script@ == HelperArgumentView::Script,
        HelperArgument::Video@ == HelperArgumentView::Video,
        HelperArgument::ModelsDir@ == HelperArgumentView::ModelsDir,
        HelperArgument::CropsDir@ == HelperArgumentView::CropsDir,
        HelperArgument::Text(text)@ == HelperArgumentView::Text(text@),
{
}

/// Law: a failure in words repeats its whole error. A helper that could not be
/// started comes with the interpreter and what to install; one that failed, with
/// its status and all that it wrote, white space around it aside.
pub proof fn helper_failures_are_told_whole(
    error: String,
    stderr: Vec<u8>,
    python_bin: Seq<char>,
    stderr_text: Seq<char>,
)
    ensures
        HelperFailure::Staging(error).message_with(python_bin, stderr_text)
            == "failed to stage detection helper: "@ + error@,
        HelperFailure::CropsDir(error).message_with(python_bin, stderr_text)
            == "failed to create crop directory: "@ + error@,
        HelperFailure::Launch(error).message_with(python_bin, stderr_text)
            == "failed to launch face-detection helper via '"@ + python_bin + "': "@ + error@
            + ". Set video_analysis.python_bin to a Python 3 interpreter with opencv-python-headless installed."@
            + " Install it with: python3 -m pip install opencv-python-headless"@,
        (HelperFailure::Exit { status: error, stderr }).message_with(python_bin, stderr_text)
            == "face detection failed ("@ + error@ + "): "@ + text::trimmed(stderr_text),
        HelperFailure::Manifest(error).message_with(python_bin, stderr_text)
            == "face-detection helper produced invalid manifest: "@ + error@,
        (HelperFailure::Exit { status: error, stderr }).error_output() == stderr@,
        (HelperFailure::Exit { status: error, stderr }).spec_message(python_bin)
            == "face detection failed ("@ + error@ + "): "@ + text::trimmed(lossy_utf8(stderr@)),
        forall|failure: HelperFailure|
            !(failure is Exit) ==> #[trigger] failure.spec_message(python_bin)
                == failure.message_with(python_bin, stderr_text),
{
}

} // verus!

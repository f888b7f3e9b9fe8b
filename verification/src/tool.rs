//! The tool as its host sees it, and the checks that a call passes before any
//! face is looked for.

use vstd::prelude::*;

use serde_json::Value;

use crate::config::{SampleRate, VideoAnalysisConfig};
use crate::detection;
use crate::detection::{HelperArgument, HelperArgumentView};
use crate::json;
use crate::json::JsonView;
use crate::text;

verus! {

/// The tool that runs the frame, face-crop, model and report pipeline.
pub struct VideoAnalysisTool {
    pub config: VideoAnalysisConfig,
}

/// Why a call is not taken up.
pub enum Refusal {
    /// The call names no video. This is an error of the caller.
    MissingPath,
    /// The call, or the configuration, asks for what cannot be done.
    Rejected(String),
}

/// A `Refusal` with its text as a sequence.
pub enum RefusalView {
    MissingPath,
    Rejected(Seq<char>),
}

impl View for Refusal {
    type V = RefusalView;

    open spec fn view(&self) -> RefusalView {
        match self {
            Refusal::MissingPath => RefusalView::MissingPath,
            Refusal::Rejected(error) => RefusalView::Rejected(error@),
        }
    }
}

impl RefusalView {
    /// The refusal in words.
    pub open spec fn message(self) -> Seq<char> {
        match self {
            RefusalView::MissingPath => "Missing 'path' parameter"@,
            RefusalView::Rejected(error) => error,
        }
    }
}

impl Refusal {
    /// The refusal in words.
    pub fn message(&self) -> (message: String)
        ensures
            message@ == self@.message(),
    {
        match self {
            Refusal::MissingPath => "Missing 'path' parameter".to_owned(),
            Refusal::Rejected(error) => error.clone(),
        }
    }
}

/// The end of a run before its report.
pub struct Stop {
    /// Whether the call still counts as an action of the agent.
    pub record_action: bool,
    /// What the user is told.
    pub error: String,
}

/// How the path of a video was resolved.
pub enum Resolution {
    /// To this path, in words.
    Found(String),
    /// Nothing is there.
    NotFound,
    /// It could not be resolved.
    Failed(String),
}

/// The rate that a call samples at: its own, or else the configured one.
pub open spec fn chosen_rate(requested: Option<SampleRate>, configured: SampleRate) -> SampleRate {
    match requested {
        Some(rate) => rate,
        None => configured,
    }
}

/// Why a call with these arguments is not taken up, if it is not.
pub open spec fn refusal(
    config: VideoAnalysisConfig,
    path: Option<Seq<char>>,
    requested: Option<SampleRate>,
) -> Option<RefusalView> {
    if path is None {
        Some(RefusalView::MissingPath)
    } else if requested is Some && !requested.unwrap().is_positive() {
        Some(RefusalView::Rejected("sample_fps must be > 0, got "@ + requested.unwrap().text@))
    } else if chosen_rate(requested, config.sample_fps).is_at_most_zero() {
        Some(RefusalView::Rejected("video_analysis.sample_fps must be > 0"@))
    } else if text::trimmed(config.vlm.base_url@).len() == 0 || text::trimmed(
        config.vlm.model@,
    ).len() == 0 {
        Some(
            RefusalView::Rejected(
                "video_analysis.vlm.base_url and video_analysis.vlm.model must be set in config (the OpenAI-compatible VLM server to send face crops to)."@,
            ),
        )
    } else {
        None
    }
}

/// A call that was taken up.
pub struct Plan {
    path: String,
    requested: Option<SampleRate>,
}

/// A call whose video was found.
pub struct LocatedVideo {
    plan: Plan,
    video: String,
}

/// A call whose video may be read.
pub struct AdmittedVideo {
    plan: Plan,
    video: String,
}

/// A call whose video may be read and that has a place to work in.
pub struct PreparedRun {
    plan: Plan,
    video: String,
}

impl Plan {
    /// The video as the call names it.
    pub closed spec fn path(self) -> Seq<char> {
        self.path@
    }

    /// The sampling rate that the call asks for.
    pub closed spec fn requested(self) -> Option<SampleRate> {
        self.requested
    }

    /// The video as the call names it.
    pub fn video_argument(&self) -> (path: &str)
        ensures
            path@ == self.path(),
    {
        self.path.as_str()
    }

    /// Takes in how the path was resolved. A path that was not still counts as an
    /// action.
    pub fn located(self, resolution: Resolution) -> (next: Result<LocatedVideo, Stop>)
        ensures
            match resolution {
                Resolution::Found(video) => next matches Ok(located) && located.plan() == self
                    && located.video() == video@,
                Resolution::NotFound => next matches Err(stop) && stop.record_action
                    && stop.error@ == "Video not found: "@ + self.path(),
                Resolution::Failed(error) => next matches Err(stop) && stop.record_action
                    && stop.error@ == "Failed to resolve video path: "@ + error@,
            },
    {
        match resolution {
            Resolution::Found(video) => Ok(LocatedVideo { plan: self, video }),
            Resolution::NotFound => Err(
                Stop {
                    record_action: true,
                    error: "Video not found: ".to_owned().concat(self.path.as_str()),
                },
            ),
            Resolution::Failed(error) => Err(
                Stop {
                    record_action: true,
                    error: "Failed to resolve video path: ".to_owned().concat(error.as_str()),
                },
            ),
        }
    }
}

impl LocatedVideo {
    /// The call.
    pub closed spec fn plan(self) -> Plan {
        self.plan
    }

    /// The path of the video in words.
    pub closed spec fn video(self) -> Seq<char> {
        self.video@
    }

    /// Takes in whether the video lies within the readable roots.
    pub fn admitted(self, readable: bool) -> (next: Result<AdmittedVideo, Stop>)
        ensures
            match next {
                Ok(admitted) => readable && admitted.plan() == self.plan() && admitted.video()
                    == self.video(),
                Err(stop) => !readable && !stop.record_action && stop.error@
                    == "Resolved video path is outside the allowed readable roots."@,
            },
    {
        if readable {
            Ok(AdmittedVideo { plan: self.plan, video: self.video })
        } else {
            Err(
                Stop {
                    record_action: false,
                    error: "Resolved video path is outside the allowed readable roots.".to_owned(),
                },
            )
        }
    }
}

impl AdmittedVideo {
    /// The call.
    pub closed spec fn plan(self) -> Plan {
        self.plan
    }

    /// The path of the video in words.
    pub closed spec fn video(self) -> Seq<char> {
        self.video@
    }

    /// Takes in whether there is a place to work in.
    pub fn prepared(self, work_dir: Result<(), String>) -> (next: Result<PreparedRun, Stop>)
        ensures
            match work_dir {
                Ok(_) => next matches Ok(prepared) && prepared.plan() == self.plan()
                    && prepared.video() == self.video(),
                Err(error) => next matches Err(stop) && !stop.record_action && stop.error@
                    == "failed to create temporary work directory: "@ + error@,
            },
    {
        match work_dir {
            Ok(_) => Ok(PreparedRun { plan: self.plan, video: self.video }),
            Err(error) => Err(
                Stop {
                    record_action: false,
                    error: "failed to create temporary work directory: ".to_owned().concat(
                        error.as_str(),
                    ),
                },
            ),
        }
    }
}

impl PreparedRun {
    /// The call.
    pub closed spec fn plan(self) -> Plan {
        self.plan
    }

    /// The path of the video in words.
    pub closed spec fn video(self) -> Seq<char> {
        self.video@
    }

    /// The path of the video in words.
    pub fn video_path(&self) -> (video: &str)
        ensures
            video@ == self.video(),
    {
        self.video.as_str()
    }

    /// The rate that the video is sampled at.
    pub fn sample_rate<'a>(&'a self, tool: &'a VideoAnalysisTool) -> (rate: &'a SampleRate)
        ensures
            *rate == chosen_rate(self.plan().requested(), tool.config.sample_fps),
            match self.plan().requested() {
                Some(own) => *rate == own,
                None => *rate == tool.config.sample_fps,
            },
    {
        match &self.plan.requested {
            Some(rate) => rate,
            None => &tool.config.sample_fps,
        }
    }

    /// The command line of the detection helper.
    pub fn helper_arguments(&self, tool: &VideoAnalysisTool) -> (arguments: Vec<HelperArgument>)
        ensures
            arguments@.map_values(|argument: HelperArgument| argument@)
                == detection::helper_command(
                tool.config.face_detector.spec_name(),
                chosen_rate(self.plan().requested(), tool.config.sample_fps).text@,
            ),
            arguments@.len() == 13,
            arguments@[3]@ == HelperArgumentView::Text("--fps"@),
            arguments@[4]@ == HelperArgumentView::Text(
                match self.plan().requested() {
                    Some(own) => own.text@,
                    None => tool.config.sample_fps.text@,
                },
            ),
    {
        let arguments = detection::helper_arguments_for(
            &tool.config.face_detector,
            self.sample_rate(tool).text.as_str(),
        );
        let ghost views = arguments@.map_values(|argument: HelperArgument| argument@);
        assert(views.len() == 13);
        assert(views[3] == arguments@[3]@ && views[4] == arguments@[4]@);
        arguments
    }
}

/// One parameter in the description of the arguments.
pub open spec fn parameter(kind: Seq<char>, description: Seq<char>) -> JsonView {
    JsonView::Object(
        map!["type"@ => JsonView::Str(kind), "description"@ => JsonView::Str(description)],
    )
}

/// The description of the arguments of a call.
pub open spec fn schema() -> JsonView {
    JsonView::Object(
        map![
            "type"@ => JsonView::Str("object"@),
            "properties"@ => JsonView::Object(
                map![
                    "path"@ => parameter(
                        "string"@,
                        "Path to the video file (absolute or relative to workspace)"@,
                    ),
                    "sample_fps"@ => parameter(
                        "number"@,
                        "Optional frame sampling rate override in frames per second (default: video_analysis.sample_fps from config)"@,
                    ),
                ],
            ),
            "required"@ => JsonView::Array(seq![JsonView::Str("path"@)]),
        ],
    )
}

fn parameter_value(kind: &str, description: &str) -> (value: Value)
    ensures
        json::value_tree(value) == parameter(kind@, description@),
{
    let mut map = serde_json::Map::new();
    json::put_text(&mut map, "type", kind);
    json::put_text(&mut map, "description", description);
    json::object_value(map)
}

impl VideoAnalysisTool {
    pub fn new(config: VideoAnalysisConfig) -> (tool: VideoAnalysisTool)
        ensures
            tool.config == config,
    {
        VideoAnalysisTool { config }
    }

    /// How long one request to the model may take, in seconds: at least one.
    pub fn client_timeout_secs(&self) -> (secs: u64)
        ensures
            secs == (if self.config.vlm.timeout_secs < 1 {
                1
            } else {
                self.config.vlm.timeout_secs
            }),
    {
        if self.config.vlm.timeout_secs < 1 {
            1
        } else {
            self.config.vlm.timeout_secs
        }
    }

    /// The name that the agent calls the tool by.
    pub fn name(&self) -> (name: &'static str)
        ensures
            name@ == "analyze_video"@,
    {
        "analyze_video"
    }

    /// What the agent is told of the tool.
    pub fn description(&self) -> (description: &'static str)
        ensures
            description@
                == "Analyze a video file for people and activity. Call this whenever the user asks to analyze, inspect, or describe a video. Samples frames at a configurable rate, detects faces locally (only cropped face regions are ever sent to the vision model), asks the configured vision-language model for per-face age/ethnicity/emotion estimates plus plausible living-room events, and writes an aggregated JSON report to the configured output directory."@,
    {
        "Analyze a video file for people and activity. Call this whenever the user asks to analyze, inspect, or describe a video. Samples frames at a configurable rate, detects faces locally (only cropped face regions are ever sent to the vision model), asks the configured vision-language model for per-face age/ethnicity/emotion estimates plus plausible living-room events, and writes an aggregated JSON report to the configured output directory."
    }

    /// The description of the arguments of a call.
    pub fn parameters_schema(&self) -> (value: Value)
        ensures
            json::value_tree(value) == schema(),
    {
        let mut properties = serde_json::Map::new();
        json::put(
            &mut properties,
            "path",
            parameter_value("string", "Path to the video file (absolute or relative to workspace)"),
        );
        json::put(
            &mut properties,
            "sample_fps",
            parameter_value(
                "number",
                "Optional frame sampling rate override in frames per second (default: video_analysis.sample_fps from config)",
            ),
        );
        let mut required: Vec<Value> = Vec::new();
        required.push(json::string_value("path".to_owned()));
        assert(json::value_trees(required@) == seq![JsonView::Str("path"@)]);
        let mut map = serde_json::Map::new();
        json::put_text(&mut map, "type", "object");
        json::put(&mut map, "properties", json::object_value(properties));
        json::put(&mut map, "required", json::array_value(required));
        json::object_value(map)
    }

    /// Takes up a call, or refuses it. `requested` is the call's own sampling rate:
    /// what `rate_argument` finds among `args`, where that is a number.
    pub fn plan(&self, args: &Value, requested: Option<SampleRate>) -> (plan: Result<Plan, Refusal>)
        ensures
            match plan {
                Ok(plan) => refusal(
                    self.config,
                    json::value_tree(*args).entry("path"@).text(),
                    requested,
                ) is None && Some(plan.path()) == json::value_tree(*args).entry("path"@).text()
                    && plan.requested() == requested,
                Err(reason) => refusal(
                    self.config,
                    json::value_tree(*args).entry("path"@).text(),
                    requested,
                ) == Some(reason@),
            },
    {
        let path = match json::entry(args, "path").as_str() {
            Some(path) => path.to_owned(),
            None => return Err(Refusal::MissingPath),
        };
        match &requested {
            Some(rate) => if !rate.positive() {
                return Err(
                    Refusal::Rejected(
                        "sample_fps must be > 0, got ".to_owned().concat(rate.text.as_str()),
                    ),
                );
            },
            None => if self.config.sample_fps.at_most_zero() {
                return Err(Refusal::Rejected("video_analysis.sample_fps must be > 0".to_owned()));
            },
        }
        if text::trim(self.config.vlm.base_url.as_str()).is_empty() || text::trim(
            self.config.vlm.model.as_str(),
        ).is_empty() {
            return Err(
                Refusal::Rejected(
                    "video_analysis.vlm.base_url and video_analysis.vlm.model must be set in config (the OpenAI-compatible VLM server to send face crops to).".to_owned(),
                ),
            );
        }
        Ok(Plan { path, requested })
    }
}

/// The sampling rate among the arguments of a call, `Null` where there is none.
pub fn rate_argument(args: &Value) -> (rate: &Value)
    ensures
        json::value_tree(*rate) == json::value_tree(*args).entry("sample_fps"@),
{
    json::entry(args, "sample_fps")
}

/// Law: a call is taken up exactly when it names a video, its sampling rate (its
/// own, or else the configured one) is not refused, and both the server and the
/// model are configured.
pub proof fn calls_taken_up(
    config: VideoAnalysisConfig,
    path: Option<Seq<char>>,
    requested: Option<SampleRate>,
)
    ensures
        refusal(config, path, requested) is None <==> {
            &&& path is Some
            &&& match requested {
                Some(rate) => rate.is_positive(),
                None => !config.sample_fps.is_at_most_zero(),
            }
            &&& text::trimmed(config.vlm.base_url@).len() > 0
            &&& text::trimmed(config.vlm.model@).len() > 0
        },
{
}

/// Law: a call that names a rate samples at that rate, whatever is configured,
/// and one that names none at the configured one.
pub proof fn calls_sample_at_their_own_rate(own: SampleRate, configured: SampleRate)
    ensures
        chosen_rate(Some(own), configured) == own,
        chosen_rate(None, configured) == configured,
{
}

/// Law: the helper is told the rate that the call names, whatever is configured.
pub proof fn the_helper_is_told_the_own_rate(
    detector: Seq<char>,
    own: SampleRate,
    configured: SampleRate,
)
    ensures
        detection::helper_command(detector, chosen_rate(Some(own), configured).text@)[3]
            == HelperArgumentView::Text("--fps"@),
        detection::helper_command(detector, chosen_rate(Some(own), configured).text@)[4]
            == HelperArgumentView::Text(own.text@),
        detection::helper_command(detector, chosen_rate(None, configured).text@)[4]
            == HelperArgumentView::Text(configured.text@),
{
}

/// Law: why a call is refused. A missing path comes before all else, then a rate
/// that is not greater than zero, and then a server or model that is not set.
pub proof fn refusals_say_why(
    config: VideoAnalysisConfig,
    path: Seq<char>,
    requested: Option<SampleRate>,
    own: SampleRate,
)
    ensures
        refusal(config, None, requested) == Some(RefusalView::MissingPath),
        !own.is_positive() ==> refusal(config, Some(path), Some(own)) == Some(
            RefusalView::Rejected("sample_fps must be > 0, got "@ + own.text@),
        ),
        config.sample_fps.is_at_most_zero() ==> refusal(config, Some(path), None) == Some(
            RefusalView::Rejected("video_analysis.sample_fps must be > 0"@),
        ),
        (match requested {
            Some(rate) => rate.is_positive(),
            None => !config.sample_fps.is_at_most_zero(),
        }) && (text::trimmed(config.vlm.base_url@).len() == 0 || text::trimmed(
            config.vlm.model@,
        ).len() == 0) ==> refusal(config, Some(path), requested) == Some(
            RefusalView::Rejected(
                "video_analysis.vlm.base_url and video_analysis.vlm.model must be set in config (the OpenAI-compatible VLM server to send face crops to)."@,
            ),
        ),
{
}

/// Law: a refusal is seen as what it is, and told whole.
pub proof fn refusals_are_told_whole(error: String)
    ensures
        Refusal::MissingPath@ == RefusalView::MissingPath,
        Refusal::Rejected(error)@ == RefusalView::Rejected(error@),
        RefusalView::MissingPath.message() == "Missing 'path' parameter"@,
        RefusalView::Rejected(error@).message() == error@,
{
}

/// Law: the description of the arguments. There are two, a string and a number;
/// each is described, and only the path is required.
pub proof fn the_arguments_of_a_call()
    ensures
        schema().keys() == set!["type"@, "properties"@, "required"@],
        schema().entry("type"@) == JsonView::Str("object"@),
        schema().entry("required"@) == JsonView::Array(seq![JsonView::Str("path"@)]),
        schema().entry("properties"@).keys() == set!["path"@, "sample_fps"@],
        schema().entry("properties"@).entry("path"@).keys() == set!["type"@, "description"@],
        schema().entry("properties"@).entry("path"@).entry("type"@) == JsonView::Str("string"@),
        schema().entry("properties"@).entry("path"@).entry("description"@) == JsonView::Str(
            "Path to the video file (absolute or relative to workspace)"@,
        ),
        schema().entry("properties"@).entry("sample_fps"@).keys() == set![
            "type"@,
            "description"@,
        ],
        schema().entry("properties"@).entry("sample_fps"@).entry("type"@) == JsonView::Str(
            "number"@,
        ),
        schema().entry("properties"@).entry("sample_fps"@).entry("description"@) == JsonView::Str(
            "Optional frame sampling rate override in frames per second (default: video_analysis.sample_fps from config)"@,
        ),
{
    reveal_strlit("type");
    reveal_strlit("properties");
    reveal_strlit("required");
    reveal_strlit("path");
    reveal_strlit("sample_fps");
    reveal_strlit("description");
    assert("type"@.len() == 4 && "properties"@.len() == 10 && "required"@.len() == 8);
    assert("path"@.len() == 4 && "sample_fps"@.len() == 10 && "description"@.len() == 11);
    let properties = schema().entry("properties"@);
    assert(schema().keys() =~= set!["type"@, "properties"@, "required"@]);
    assert(properties.keys() =~= set!["path"@, "sample_fps"@]);
    assert(properties.entry("path"@).keys() =~= set!["type"@, "description"@]);
    assert(properties.entry("sample_fps"@).keys() =~= set!["type"@, "description"@]);
}

} // verus!

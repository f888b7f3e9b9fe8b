//! The analysis of a video's samples: a state machine that asks for one outside
//! action at a time (reading a face crop, sending a chat request) and is told
//! how it went.

use vstd::prelude::*;

use serde_json::Value;

use crate::chat;
use crate::detection::{DetectionManifest, DetectionSample};
use crate::encoding;
use crate::json;
use crate::json::JsonView;
use crate::reply;
use crate::text;
use crate::tool::VideoAnalysisTool;
use crate::vlm::{VlmError, VlmErrorView};

verus! {

/// What came of a chat request.
pub enum Verdict {
    /// The reply holds this JSON object.
    Object(Value),
    /// The reply holds no JSON object.
    Unparsed(String),
    /// There is no reply.
    Failed(VlmError),
}

/// A `Verdict` with its contents as mathematical values.
pub enum VerdictView {
    Object(JsonView),
    Unparsed(Seq<char>),
    Failed(VlmErrorView),
}

impl View for Verdict {
    type V = VerdictView;

    open spec fn view(&self) -> VerdictView {
        match self {
            Verdict::Object(value) => VerdictView::Object(json::value_tree(*value)),
            Verdict::Unparsed(reply) => VerdictView::Unparsed(reply@),
            Verdict::Failed(error) => VerdictView::Failed(error@),
        }
    }
}

/// What a reply amounts to.
pub open spec fn verdict_on(reply: Result<Seq<char>, VlmErrorView>) -> VerdictView {
    match reply {
        Ok(text) => verdict_given(text, reply::reply_object(text)),
        Err(error) => VerdictView::Failed(error),
    }
}

/// What a reply amounts to in which `object` was found.
pub open spec fn verdict_given(text: Seq<char>, object: Option<JsonView>) -> VerdictView {
    match object {
        Some(tree) => VerdictView::Object(tree),
        None => VerdictView::Unparsed(text),
    }
}

/// How an action went.
pub enum Event {
    /// A face crop was read, or could not be.
    CropRead(Result<Vec<u8>, String>),
    /// A chat request was answered.
    Answered(Verdict),
}

/// What is to be done next.
pub enum Action {
    /// Read the face crop at this path.
    ReadCrop { path: String },
    /// Send a chat request with these messages.
    PostChat { messages: Vec<Value> },
    /// Nothing: every sample is done.
    Conclude,
    /// Nothing: the run is over, with this error.
    Abort { error: String },
}

/// What an analysis waits for.
pub enum Wait {
    /// The crop of the next face.
    Crop,
    /// The reply to the first request about the sample.
    FirstReply,
    /// The reply to the second request about the sample. The first reply, which
    /// was no JSON, comes with it.
    SecondReply(String),
    /// Nothing: every sample is done.
    Done,
    /// Nothing: the run is over, with this error.
    Aborted(String),
}

/// A `Wait` with its text as a sequence.
pub enum WaitView {
    Crop,
    FirstReply,
    SecondReply(Seq<char>),
    Done,
    Aborted(Seq<char>),
}

impl View for Wait {
    type V = WaitView;

    open spec fn view(&self) -> WaitView {
        match self {
            Wait::Crop => WaitView::Crop,
            Wait::FirstReply => WaitView::FirstReply,
            Wait::SecondReply(reply) => WaitView::SecondReply(reply@),
            Wait::Done => WaitView::Done,
            Wait::Aborted(error) => WaitView::Aborted(error@),
        }
    }
}

/// How far an analysis has come.
pub struct Analysis {
    pub manifest: DetectionManifest,
    /// The sample at work.
    pub sample: usize,
    /// The face of the sample whose crop is next.
    pub face: usize,
    /// The crops of the sample that were read, as base64 text.
    pub crops: Vec<(u32, String)>,
    pub wait: Wait,
    /// The entries of the report so far.
    pub results: Vec<Value>,
    /// How many of the entries record a failure.
    pub vlm_errors: u64,
}

/// How far an analysis has come, in mathematical values.
#[verifier::ext_equal]
pub struct Progress {
    pub sample: int,
    pub face: int,
    pub crops: Seq<(u32, Seq<char>)>,
    pub wait: WaitView,
    pub results: Seq<JsonView>,
    pub vlm_errors: nat,
}

impl View for Analysis {
    type V = Progress;

    open spec fn view(&self) -> Progress {
        Progress {
            sample: self.sample as int,
            face: self.face as int,
            crops: chat::crop_views(self.crops@),
            wait: self.wait@,
            results: json::value_trees(self.results@),
            vlm_errors: self.vlm_errors as nat,
        }
    }
}

/// The entry that records a failure at a timestamp.
pub open spec fn error_entry(timestamp: Seq<char>, error: Seq<char>) -> JsonView {
    JsonView::Object(
        map!["timestamp"@ => JsonView::Str(timestamp), "error"@ => JsonView::Str(error)],
    )
}

/// An object with its timestamp set, whatever it said before.
pub open spec fn pinned(tree: JsonView, timestamp: Seq<char>) -> JsonView {
    match tree {
        JsonView::Object(entries) => JsonView::Object(
            entries.insert("timestamp"@, JsonView::Str(timestamp)),
        ),
        _ => tree,
    }
}

/// What is recorded of a crop that could not be read.
pub open spec fn crop_error(error: Seq<char>) -> Seq<char> {
    "failed to read face crop: "@ + error
}

/// What the user is told of a server that cannot be reached.
pub open spec fn unreachable_error(base_url: Seq<char>, error: Seq<char>) -> Seq<char> {
    "VLM server at "@ + base_url + " unreachable: "@ + error
        + ". Check video_analysis.vlm.base_url and that the server is running."@
}

impl Progress {
    /// Before the first sample, with nothing recorded.
    pub open spec fn initial() -> Progress {
        Progress {
            sample: 0,
            face: 0,
            crops: Seq::<(u32, Seq<char>)>::empty(),
            wait: WaitView::Crop,
            results: Seq::<JsonView>::empty(),
            vlm_errors: 0,
        }
    }

    /// The sample at work.
    pub open spec fn at(self, manifest: DetectionManifest) -> DetectionSample {
        manifest.samples@[self.sample]
    }

    /// Before the first face of the next sample.
    pub open spec fn moved_on(self) -> Progress {
        Progress {
            sample: self.sample + 1,
            face: 0,
            crops: Seq::<(u32, Seq<char>)>::empty(),
            ..self
        }
    }

    /// With one more entry.
    pub open spec fn with_result(self, tree: JsonView) -> Progress {
        Progress { results: self.results.push(tree), ..self }
    }

    /// With one more failure.
    pub open spec fn with_error(self, timestamp: Seq<char>, error: Seq<char>) -> Progress {
        Progress {
            results: self.results.push(error_entry(timestamp, error)),
            vlm_errors: self.vlm_errors + 1,
            ..self
        }
    }

    /// With what comes next decided: the next crop of the sample; then, where
    /// there are crops, the request about them; else the next sample.
    pub open spec fn settled(self, manifest: DetectionManifest) -> Progress
        decreases manifest.samples@.len() - self.sample,
    {
        if self.sample < 0 || self.sample >= manifest.samples@.len() {
            Progress { wait: WaitView::Done, ..self }
        } else if self.face < self.at(manifest).faces@.len() {
            Progress { wait: WaitView::Crop, ..self }
        } else if self.crops.len() > 0 {
            Progress { wait: WaitView::FirstReply, ..self }
        } else {
            self.moved_on().settled(manifest)
        }
    }

    /// Whether `event` is what is waited for.
    pub open spec fn accepts(self, event: Event) -> bool {
        match event {
            Event::CropRead(outcome) => self.wait is Crop && (outcome matches Ok(bytes)
                ==> encoding::encodable(bytes@.len())),
            Event::Answered(_) => self.wait is FirstReply || self.wait is SecondReply,
        }
    }

    /// After a crop was read, or could not be.
    pub open spec fn after_crop(
        self,
        manifest: DetectionManifest,
        outcome: Result<Vec<u8>, String>,
    ) -> Progress {
        let sample = self.at(manifest);
        let next = Progress { face: self.face + 1, ..self };
        match outcome {
            Ok(bytes) => Progress {
                crops: self.crops.push(
                    (sample.faces@[self.face].face_id, encoding::base64_text(bytes@)),
                ),
                ..next
            }.settled(manifest),
            Err(error) => next.with_error(sample.timestamp@, crop_error(error@)).settled(manifest),
        }
    }

    /// After a chat request was answered.
    pub open spec fn after_answer(
        self,
        manifest: DetectionManifest,
        base_url: Seq<char>,
        verdict: VerdictView,
    ) -> Progress {
        let timestamp = self.at(manifest).timestamp@;
        match verdict {
            VerdictView::Object(tree) => self.with_result(
                pinned(tree, timestamp),
            ).moved_on().settled(manifest),
            VerdictView::Unparsed(reply) => if self.wait is FirstReply {
                Progress { wait: WaitView::SecondReply(reply), ..self }
            } else {
                self.with_error(
                    timestamp,
                    VlmErrorView::MalformedJson(text::excerpt(reply)).message(),
                ).moved_on().settled(manifest)
            },
            VerdictView::Failed(VlmErrorView::Unreachable(error)) => Progress {
                wait: WaitView::Aborted(unreachable_error(base_url, error)),
                ..self
            },
            VerdictView::Failed(error) => self.with_error(
                timestamp,
                error.message(),
            ).moved_on().settled(manifest),
        }
    }

    /// After an event.
    pub open spec fn after(
        self,
        manifest: DetectionManifest,
        base_url: Seq<char>,
        event: Event,
    ) -> Progress {
        match event {
            Event::CropRead(outcome) => self.after_crop(manifest, outcome),
            Event::Answered(verdict) => self.after_answer(manifest, base_url, verdict@),
        }
    }

    /// What holds between any two events.
    pub open spec fn valid(self, manifest: DetectionManifest) -> bool {
        &&& 0 <= self.sample <= manifest.samples@.len()
        &&& 0 <= self.face
        &&& self.vlm_errors <= self.results.len()
        &&& match self.wait {
            WaitView::Crop => self.sample < manifest.samples@.len() && self.face < self.at(
                manifest,
            ).faces@.len(),
            WaitView::FirstReply | WaitView::SecondReply(_) => self.sample
                < manifest.samples@.len() && self.face == self.at(manifest).faces@.len()
                && self.crops.len() > 0,
            WaitView::Done => self.sample == manifest.samples@.len(),
            WaitView::Aborted(_) => true,
        }
    }

    /// Whether `action` is what leads to what is waited for.
    pub open spec fn calls_for(self, manifest: DetectionManifest, action: Action) -> bool {
        match self.wait {
            WaitView::Crop => action matches Action::ReadCrop { path } && path@ == self.at(
                manifest,
            ).faces@[self.face].crop_path@,
            WaitView::FirstReply => action matches Action::PostChat { messages }
                && json::value_trees(messages@) == chat::conversation(
                self.at(manifest).timestamp@,
                self.crops,
                None,
            ),
            WaitView::SecondReply(first) => action matches Action::PostChat { messages }
                && json::value_trees(messages@) == chat::conversation(
                self.at(manifest).timestamp@,
                self.crops,
                Some(first),
            ),
            WaitView::Done => action is Conclude,
            WaitView::Aborted(message) => action matches Action::Abort { error } && error@
                == message,
        }
    }
}

/// What a reply amounts to in which `object` was found.
pub fn judge_object(reply: String, object: Option<Value>) -> (verdict: Verdict)
    ensures
        verdict@ == verdict_given(reply@, reply::value_view(object)),
{
    match object {
        Some(value) => Verdict::Object(value),
        None => Verdict::Unparsed(reply),
    }
}

/// What a reply amounts to.
pub fn judge(reply: Result<String, VlmError>) -> (verdict: Verdict)
    ensures
        verdict@ == verdict_on(reply::reply_view(reply)),
        verdict matches Verdict::Object(value) ==> json::value_tree(value) is Object,
{
    match reply {
        Ok(text) => {
            let object = VideoAnalysisTool::parse_json_reply(text.as_str());
            judge_object(text, object)
        },
        Err(error) => Verdict::Failed(error),
    }
}

/// An object with its timestamp set, whatever it said before.
pub fn pin_timestamp(value: Value, timestamp: &str) -> (pinned_value: Value)
    ensures
        json::value_tree(pinned_value) == pinned(json::value_tree(value), timestamp@),
        forall|key: Seq<char>|
            key != "timestamp"@ ==> #[trigger] json::value_tree(pinned_value).entry(key)
                == json::value_tree(value).entry(key),
        json::value_tree(value) is Object ==> json::value_tree(pinned_value).keys()
            == json::value_tree(value).keys().insert("timestamp"@) && json::value_tree(
            pinned_value,
        ).entry("timestamp"@) == JsonView::Str(timestamp@),
{
    let mut value = value;
    if let Some(object) = value.as_object_mut() {
        json::put_text(object, "timestamp", timestamp);
    }
    value
}

fn error_entry_value(timestamp: &str, error: &str) -> (value: Value)
    ensures
        json::value_tree(value) == error_entry(timestamp@, error@),
{
    let mut map = serde_json::Map::new();
    json::put_text(&mut map, "timestamp", timestamp);
    json::put_text(&mut map, "error", error);
    json::object_value(map)
}

impl Analysis {
    /// Whether this stands between two events.
    pub open spec fn wf(self) -> bool {
        self@.valid(self.manifest)
    }

    /// Starts the analysis of the samples of `manifest`.
    pub fn start(manifest: DetectionManifest) -> (started: (Analysis, Action))
        ensures
            started.0.manifest == manifest,
            started.0@ == Progress::initial().settled(manifest),
            started.0.wf(),
            started.0@.calls_for(manifest, started.1),
    {
        let mut analysis = Analysis {
            manifest,
            sample: 0,
            face: 0,
            crops: Vec::new(),
            wait: Wait::Crop,
            results: Vec::new(),
            vlm_errors: 0,
        };
        assert(analysis@ =~= Progress::initial());
        analysis.settle();
        let action = analysis.action();
        (analysis, action)
    }

    /// Takes in how an action went.
    pub fn step(self, base_url: &str, event: Event) -> (next: (Analysis, Action))
        requires
            self.wf(),
            self@.accepts(event),
        ensures
            next.0.manifest == self.manifest,
            next.0@ == self@.after(self.manifest, base_url@, event),
            next.0.wf(),
            next.0@.calls_for(self.manifest, next.1),
    {
        let mut analysis = self;
        match event {
            Event::CropRead(outcome) => analysis.take_crop(outcome),
            Event::Answered(verdict) => analysis.take_answer(base_url, verdict),
        }
        let action = analysis.action();
        (analysis, action)
    }

    /// Whether `event` is what is waited for.
    pub fn accepts(&self, event: &Event) -> (yes: bool)
        ensures
            yes == self@.accepts(*event),
    {
        match event {
            Event::CropRead(Ok(bytes)) => matches!(self.wait, Wait::Crop) && encoding::can_encode(
                bytes.len(),
            ),
            Event::CropRead(Err(_)) => matches!(self.wait, Wait::Crop),
            Event::Answered(_) => match self.wait {
                Wait::FirstReply => true,
                Wait::SecondReply(_) => true,
                _ => false,
            },
        }
    }

    /// Whether every sample is done.
    pub fn is_done(&self) -> (yes: bool)
        ensures
            yes == (self@.wait is Done),
    {
        matches!(self.wait, Wait::Done)
    }

    fn take_crop(&mut self, outcome: Result<Vec<u8>, String>)
        requires
            old(self).wf(),
            old(self)@.accepts(Event::CropRead(outcome)),
        ensures
            final(self).manifest == old(self).manifest,
            final(self)@ == old(self)@.after_crop(old(self).manifest, outcome),
            final(self).wf(),
    {
        let ghost before = self@;
        assert(self.face < self.manifest.samples[self.sample as int].faces.len());
        match outcome {
            Ok(bytes) => {
                let face_id = self.manifest.samples[self.sample].faces[self.face].face_id;
                self.crops.push((face_id, encoding::encode_base64(&bytes)));
                self.face = self.face + 1;
                assert(self@ =~= Progress {
                    face: before.face + 1,
                    crops: before.crops.push((face_id, encoding::base64_text(bytes@))),
                    ..before
                });
            },
            Err(error) => {
                let message = "failed to read face crop: ".to_owned().concat(error.as_str());
                self.face = self.face + 1;
                self.record_error(message.as_str());
            },
        }
        self.settle();
    }

    fn take_answer(&mut self, base_url: &str, verdict: Verdict)
        requires
            old(self).wf(),
            old(self)@.accepts(Event::Answered(verdict)),
        ensures
            final(self).manifest == old(self).manifest,
            final(self)@ == old(self)@.after_answer(old(self).manifest, base_url@, verdict@),
            final(self).wf(),
    {
        let ghost before = self@;
        match verdict {
            Verdict::Object(value) => {
                let timestamp = self.manifest.samples[self.sample].timestamp.clone();
                let value = pin_timestamp(value, timestamp.as_str());
                self.results.push(value);
                assert(self@ =~= before.with_result(json::value_tree(value)));
                self.move_on();
            },
            Verdict::Unparsed(reply) => {
                if matches!(self.wait, Wait::FirstReply) {
                    self.wait = Wait::SecondReply(reply);
                    assert(self@ =~= Progress { wait: WaitView::SecondReply(reply@), ..before });
                } else {
                    let error = VlmError::MalformedJson(text::shortened(reply.as_str()).to_owned());
                    self.record_error(error.message().as_str());
                    self.move_on();
                }
            },
            Verdict::Failed(error) => {
                match error {
                    VlmError::Unreachable(error) => {
                        let mut message = "VLM server at ".to_owned();
                        message.append(base_url);
                        message.append(" unreachable: ");
                        message.append(error.as_str());
                        message.append(
                            ". Check video_analysis.vlm.base_url and that the server is running.",
                        );
                        self.wait = Wait::Aborted(message);
                        assert(self@ =~= Progress { wait: WaitView::Aborted(message@), ..before });
                    },
                    error => {
                        self.record_error(error.message().as_str());
                        self.move_on();
                    },
                }
            },
        }
    }

    /// Records a failure at the sample at work.
    fn record_error(&mut self, error: &str)
        requires
            old(self).sample < old(self).manifest.samples@.len(),
            old(self).vlm_errors <= old(self).results@.len(),
        ensures
            final(self).manifest == old(self).manifest,
            final(self)@ == old(self)@.with_error(
                old(self)@.at(old(self).manifest).timestamp@,
                error@,
            ),
            final(self).vlm_errors <= final(self).results@.len(),
    {
        let ghost before = self@;
        let entry = error_entry_value(
            self.manifest.samples[self.sample].timestamp.as_str(),
            error,
        );
        self.results.push(entry);
        assert(self.vlm_errors < self.results.len());
        self.vlm_errors = self.vlm_errors + 1;
        assert(json::value_trees(self.results@) == before.results.push(json::value_tree(entry)));
    }

    /// Goes to the next sample that has something to do.
    fn move_on(&mut self)
        requires
            old(self).sample < old(self).manifest.samples@.len(),
            old(self).vlm_errors <= old(self).results@.len(),
        ensures
            final(self).manifest == old(self).manifest,
            final(self)@ == old(self)@.moved_on().settled(old(self).manifest),
            final(self).wf(),
    {
        let ghost before = self@;
        assert(self.sample < self.manifest.samples.len());
        self.sample = self.sample + 1;
        self.face = 0;
        self.crops = Vec::new();
        assert(self@ =~= before.moved_on());
        self.settle();
    }

    /// Decides what comes next.
    fn settle(&mut self)
        requires
            old(self).sample <= old(self).manifest.samples@.len(),
            old(self).sample < old(self).manifest.samples@.len() ==> old(self).face <= old(self)@.at(
                old(self).manifest,
            ).faces@.len(),
            old(self).vlm_errors <= old(self).results@.len(),
        ensures
            final(self).manifest == old(self).manifest,
            final(self)@ == old(self)@.settled(old(self).manifest),
            final(self).wf(),
    {
        let ghost manifest = self.manifest;
        let ghost goal = self@.settled(manifest);
        while self.sample < self.manifest.samples.len() && self.face
            >= self.manifest.samples[self.sample].faces.len() && self.crops.len() == 0
            invariant
                self.manifest == manifest,
                self.sample <= manifest.samples@.len(),
                self.sample < manifest.samples@.len() ==> self.face <= self@.at(
                    manifest,
                ).faces@.len(),
                self.vlm_errors <= self.results@.len(),
                self@.settled(manifest) == goal,
            decreases manifest.samples@.len() - self.sample,
        {
            let ghost before = self@;
            self.sample = self.sample + 1;
            self.face = 0;
            self.crops = Vec::new();
            assert(self@ =~= before.moved_on());
        }
        let ghost before = self@;
        if self.sample == self.manifest.samples.len() {
            self.wait = Wait::Done;
        } else if self.face < self.manifest.samples[self.sample].faces.len() {
            self.wait = Wait::Crop;
        } else {
            self.wait = Wait::FirstReply;
        }
        assert(self@ =~= before.settled(manifest));
    }

    /// The action that leads to what is waited for.
    fn action(&self) -> (action: Action)
        requires
            self.wf(),
        ensures
            self@.calls_for(self.manifest, action),
    {
        match &self.wait {
            Wait::Crop => Action::ReadCrop {
                path: self.manifest.samples[self.sample].faces[self.face].crop_path.clone(),
            },
            Wait::FirstReply => Action::PostChat {
                messages: VideoAnalysisTool::messages(
                    &self.manifest.samples[self.sample],
                    self.crops.as_slice(),
                    None,
                ),
            },
            Wait::SecondReply(first) => Action::PostChat {
                messages: VideoAnalysisTool::messages(
                    &self.manifest.samples[self.sample],
                    self.crops.as_slice(),
                    Some(first.as_str()),
                ),
            },
            Wait::Done => Action::Conclude,
            Wait::Aborted(error) => Action::Abort { error: error.clone() },
        }
    }
}

/// Law: an answer is recorded as the model gave it but for its timestamp: under
/// every other key stands exactly what the model said, and no key comes or goes.
pub proof fn only_the_timestamp_is_pinned(tree: JsonView, timestamp: Seq<char>, key: Seq<char>)
    ensures
        key != "timestamp"@ ==> pinned(tree, timestamp).entry(key) == tree.entry(key),
        key != "timestamp"@ ==> (pinned(tree, timestamp).keys().contains(key)
            <==> tree.keys().contains(key)),
        tree is Object ==> pinned(tree, timestamp).keys() == tree.keys().insert("timestamp"@),
        tree is Object ==> pinned(tree, timestamp).entry("timestamp"@) == JsonView::Str(timestamp),
        !(tree is Object) ==> pinned(tree, timestamp) == tree,
{
}

/// Law: a recorded failure holds its timestamp and its error, and nothing else.
pub proof fn recorded_failures_name_their_timestamp(timestamp: Seq<char>, error: Seq<char>)
    ensures
        error_entry(timestamp, error).keys() == set!["timestamp"@, "error"@],
        error_entry(timestamp, error).entry("timestamp"@) == JsonView::Str(timestamp),
        error_entry(timestamp, error).entry("error"@) == JsonView::Str(error),
{
    reveal_strlit("timestamp");
    reveal_strlit("error");
    assert("timestamp"@.len() != "error"@.len());
    assert(error_entry(timestamp, error).keys() =~= set!["timestamp"@, "error"@]);
}

/// Law: what a reply amounts to is its object, where it holds one, or else the
/// whole reply; and without a reply, the failure.
pub proof fn replies_are_judged_by_their_object(reply: Seq<char>, error: VlmErrorView)
    ensures
        verdict_on(Ok(reply)) == match reply::reply_object(reply) {
            Some(tree) => VerdictView::Object(tree),
            None => VerdictView::Unparsed(reply),
        },
        verdict_on(Err(error)) == VerdictView::Failed(error),
        forall|object: Option<JsonView>| #[trigger]
            verdict_given(reply, object) == match object {
                Some(tree) => VerdictView::Object(tree),
                None => VerdictView::Unparsed(reply),
            },
{
}

/// Law: verdicts and waits are seen as what they are, with all that they hold.
pub proof fn verdicts_and_waits_are_seen_whole(value: Value, words: String, error: VlmError)
    ensures
        Verdict::Object(value)@ == VerdictView::Object(json::value_tree(value)),
        Verdict::Unparsed(words)@ == VerdictView::Unparsed(words@),
        Verdict::Failed(error)@ == VerdictView::Failed(error@),
        Wait::Crop@ == WaitView::Crop,
        Wait::FirstReply@ == WaitView::FirstReply,
        Wait::SecondReply(words)@ == WaitView::SecondReply(words@),
        Wait::Done@ == WaitView::Done,
        Wait::Aborted(words)@ == WaitView::Aborted(words@),
{
}

/// Law: an analysis is seen with all of its crops and entries, in order.
pub proof fn analyses_are_seen_whole(analysis: Analysis)
    ensures
        analysis@.sample == analysis.sample,
        analysis@.face == analysis.face,
        analysis@.wait == analysis.wait@,
        analysis@.vlm_errors == analysis.vlm_errors,
        analysis@.crops.len() == analysis.crops@.len(),
        forall|k: int|
            0 <= k < analysis.crops@.len() ==> (#[trigger] analysis@.crops[k]).0
                == analysis.crops@[k].0 && analysis@.crops[k].1 == analysis.crops@[k].1@,
        analysis@.results.len() == analysis.results@.len(),
        forall|k: int|
            0 <= k < analysis.results@.len() ==> #[trigger] analysis@.results[k]
                == json::value_tree(analysis.results@[k]),
{
}

/// Law: where a crop is waited for, every outcome of reading it is taken in whose
/// bytes can be sent, and where a reply is waited for, every verdict. Nothing
/// else is.
pub proof fn what_is_waited_for_is_taken_in(
    progress: Progress,
    bytes: Vec<u8>,
    error: String,
    verdict: Verdict,
)
    ensures
        progress.accepts(Event::CropRead(Err(error))) <==> progress.wait is Crop,
        progress.accepts(Event::CropRead(Ok(bytes))) <==> progress.wait is Crop && bytes@.len()
            <= isize::MAX / 4 * 3,
        progress.accepts(Event::Answered(verdict)) <==> progress.wait is FirstReply
            || progress.wait is SecondReply,
{
    encoding::encodable_as_far_as_a_string_goes(bytes@.len());
}

/// Law: the action that is called for tells what is waited for.
pub proof fn actions_and_waits_agree(
    progress: Progress,
    manifest: DetectionManifest,
    action: Action,
)
    requires
        progress.calls_for(manifest, action),
    ensures
        action is ReadCrop <==> progress.wait is Crop,
        action is PostChat <==> progress.wait is FirstReply || progress.wait is SecondReply,
        action is Conclude <==> progress.wait is Done,
        action is Abort <==> progress.wait is Aborted,
        action matches Action::ReadCrop { path } ==> path@
            == manifest.samples@[progress.sample].faces@[progress.face].crop_path@,
        action matches Action::Abort { error } ==> progress.wait == WaitView::Aborted(error@),
{
}

/// Law: the messages of a request show every crop that is kept, in order, under
/// the timestamp of the sample at work; and a second request repeats the first
/// reply.
pub proof fn requests_show_what_is_kept(
    progress: Progress,
    manifest: DetectionManifest,
    action: Action,
)
    requires
        progress.calls_for(manifest, action),
    ensures
        action matches Action::PostChat { messages } ==> {
            let content = json::value_tree(messages@[1]).entry("content"@);
            let timestamp = manifest.samples@[progress.sample].timestamp@;
            &&& messages@.len() == if progress.wait is SecondReply {
                4int
            } else {
                2
            }
            &&& json::value_trees(messages@) == chat::conversation(
                timestamp,
                progress.crops,
                match progress.wait {
                    WaitView::SecondReply(first) => Some(first),
                    _ => None,
                },
            )
            &&& json::value_tree(messages@[0]).entry("role"@) == JsonView::Str("system"@)
            &&& json::value_tree(messages@[0]).entry("content"@) == JsonView::Str(
                chat::VLM_SYSTEM_PROMPT@,
            )
            &&& json::value_tree(messages@[1]).entry("role"@) == JsonView::Str("user"@)
            &&& content matches JsonView::Array(items) && items.len() == 1 + progress.crops.len()
            &&& content.item(0).entry("text"@) == JsonView::Str(
                "Video timestamp "@ + timestamp + ": "@ + text::decimal(progress.crops.len())
                    + " cropped face(s) follow, in face_id order ("@ + chat::face_list(
                    progress.crops,
                ) + "). Analyze them per the schema, using this exact timestamp value."@,
            )
            &&& forall|k: int|
                0 <= k < progress.crops.len() ==> (#[trigger] content.item(k + 1)).entry(
                    "image_url"@,
                ).entry("url"@) == JsonView::Str("data:image/jpeg;base64,"@ + progress.crops[k].1)
            &&& progress.wait matches WaitView::SecondReply(first) ==> {
                &&& json::value_tree(messages@[2]).entry("role"@) == JsonView::Str("assistant"@)
                &&& json::value_tree(messages@[2]).entry("content"@) == JsonView::Str(first)
                &&& json::value_tree(messages@[3]).entry("role"@) == JsonView::Str("user"@)
                &&& json::value_tree(messages@[3]).entry("content"@) == JsonView::Str(
                    chat::VLM_JSON_RETRY_REMINDER@,
                )
            }
        },
{
    if let Action::PostChat { messages } = action {
        let timestamp = manifest.samples@[progress.sample].timestamp@;
        let first_reply = match progress.wait {
            WaitView::SecondReply(first) => Some(first),
            _ => None,
        };
        chat::conversations_in_order(timestamp, progress.crops, first_reply);
        chat::user_messages_hold_every_crop(timestamp, progress.crops);
        json::lists_are_seen_whole(messages@);
        let trees = json::value_trees(messages@);
        assert(trees[0] == json::value_tree(messages@[0]));
        assert(trees[1] == json::value_tree(messages@[1]));
        if first_reply is Some {
            assert(trees[2] == json::value_tree(messages@[2]));
            assert(trees[3] == json::value_tree(messages@[3]));
        }
    }
}

} // verus!

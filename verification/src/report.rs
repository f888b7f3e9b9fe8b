//! The report of a run, where it goes, and what the agent is told of it.

use vstd::prelude::*;

use serde_json::Value;

use crate::analysis::Analysis;
use crate::detection::DetectionManifest;
use crate::json;
use crate::json::JsonView;
use crate::reply;
use crate::text;
use crate::tool;
use crate::tool::{PreparedRun, VideoAnalysisTool};

verus! {

/// The numbers that the report and the summary share.
pub struct Tally {
    pub detector_used: String,
    pub frames_sampled: u64,
    pub frames_with_faces: u64,
    /// How many entries the report has.
    pub entries: u64,
    /// How many of them record a failure.
    pub vlm_errors: u64,
    /// How long the run took, in seconds.
    pub processing_time_secs: Value,
}

/// A finished run: its report and its numbers.
pub struct Report {
    pub value: Value,
    pub tally: Tally,
}

/// What the agent is told of a finished run.
pub struct Summary {
    pub value: Value,
    pub text: String,
}

/// The numbers of a run within its report.
pub open spec fn metadata(
    frames_sampled: nat,
    frames_with_faces: nat,
    vlm_errors: nat,
    processing_time_secs: JsonView,
) -> JsonView {
    JsonView::Object(
        map![
            "total_frames_processed"@ => json::count(frames_sampled),
            "frames_with_faces"@ => json::count(frames_with_faces),
            "vlm_request_errors"@ => json::count(vlm_errors),
            "processing_time_secs"@ => processing_time_secs,
        ],
    )
}

/// The remark of a report: that no face was found, where none was.
pub open spec fn remark(frames_with_faces: nat) -> JsonView {
    if frames_with_faces == 0 {
        JsonView::Str("no faces found in sampled frames"@)
    } else {
        JsonView::Null
    }
}

/// The note of the detector: `Null` where there is none.
pub open spec fn detector_note(manifest: DetectionManifest) -> JsonView {
    match manifest.detector_note {
        Some(note) => JsonView::Str(note@),
        None => JsonView::Null,
    }
}

/// The report of a run.
pub open spec fn report_tree(
    video: Seq<char>,
    generated_at: Seq<char>,
    model: Seq<char>,
    manifest: DetectionManifest,
    sample_fps: JsonView,
    vlm_errors: nat,
    processing_time_secs: JsonView,
    results: Seq<JsonView>,
) -> JsonView {
    JsonView::Object(
        map![
            "video_path"@ => JsonView::Str(video),
            "generated_at"@ => JsonView::Str(generated_at),
            "vlm_model"@ => JsonView::Str(model),
            "detector_used"@ => JsonView::Str(manifest.detector_used@),
            "detector_note"@ => detector_note(manifest),
            "sample_fps"@ => sample_fps,
            "metadata"@ => metadata(
                manifest.frames_sampled as nat,
                manifest.frames_with_faces as nat,
                vlm_errors,
                processing_time_secs,
            ),
            "note"@ => remark(manifest.frames_with_faces as nat),
            "results"@ => JsonView::Array(results),
        ],
    )
}

/// The text of a report: indented, or compact where that cannot be had.
pub open spec fn rendered(pretty: Option<Seq<char>>, compact: Seq<char>) -> Seq<char> {
    match pretty {
        Some(text) => text,
        None => compact,
    }
}

impl Tally {
    /// What the agent is told as data.
    pub open spec fn summary_tree(self, output_file: Seq<char>) -> JsonView {
        JsonView::Object(
            map![
                "output_file"@ => JsonView::Str(output_file),
                "detector_used"@ => JsonView::Str(self.detector_used@),
                "total_frames_processed"@ => json::count(self.frames_sampled as nat),
                "frames_with_faces"@ => json::count(self.frames_with_faces as nat),
                "timestamps_analyzed"@ => json::count(self.entries as nat),
                "vlm_request_errors"@ => json::count(self.vlm_errors as nat),
                "processing_time_secs"@ => json::value_tree(self.processing_time_secs),
            ],
        )
    }

    /// What the agent is told in words.
    pub open spec fn summary_text(self, output_file: Seq<char>) -> Seq<char> {
        if self.frames_with_faces == 0 {
            "No faces found in "@ + text::decimal(self.frames_sampled as nat)
                + " sampled frames. Report written to "@ + output_file
        } else {
            "Analyzed "@ + text::decimal(self.entries as nat)
                + " timestamp(s) with faces across "@ + text::decimal(self.frames_sampled as nat)
                + " sampled frames ("@ + text::decimal(self.vlm_errors as nat)
                + " VLM error(s)). Report written to "@ + output_file
        }
    }

    /// What the agent is told of the run whose report is at `output_file`.
    pub fn summary(&self, output_file: &str) -> (summary: Summary)
        ensures
            json::value_tree(summary.value) == self.summary_tree(output_file@),
            summary.text@ == self.summary_text(output_file@),
    {
        let mut map = serde_json::Map::new();
        json::put_text(&mut map, "output_file", output_file);
        json::put_text(&mut map, "detector_used", self.detector_used.as_str());
        json::put_count(&mut map, "total_frames_processed", self.frames_sampled);
        json::put_count(&mut map, "frames_with_faces", self.frames_with_faces);
        json::put_count(&mut map, "timestamps_analyzed", self.entries);
        json::put_count(&mut map, "vlm_request_errors", self.vlm_errors);
        json::put(&mut map, "processing_time_secs", self.processing_time_secs.clone());
        let sampled = text::decimal_text(self.frames_sampled);
        let words = if self.frames_with_faces == 0 {
            let mut words = "No faces found in ".to_owned();
            words.append(sampled.as_str());
            words.append(" sampled frames. Report written to ");
            words.append(output_file);
            words
        } else {
            let mut words = "Analyzed ".to_owned();
            words.append(text::decimal_text(self.entries).as_str());
            words.append(" timestamp(s) with faces across ");
            words.append(sampled.as_str());
            words.append(" sampled frames (");
            words.append(text::decimal_text(self.vlm_errors).as_str());
            words.append(" VLM error(s)). Report written to ");
            words.append(output_file);
            words
        };
        Summary { value: json::object_value(map), text: words }
    }
}

impl Report {
    /// Whether the numbers are those of a run over `manifest` with these entries
    /// and failures.
    pub open spec fn counts(
        self,
        manifest: DetectionManifest,
        entries: nat,
        vlm_errors: nat,
    ) -> bool {
        &&& self.tally.detector_used@ == manifest.detector_used@
        &&& self.tally.frames_sampled == manifest.frames_sampled
        &&& self.tally.frames_with_faces == manifest.frames_with_faces
        &&& self.tally.entries == entries
        &&& self.tally.vlm_errors == vlm_errors
    }

    /// The report of a run whose every sample is done.
    pub fn compile(
        tool: &VideoAnalysisTool,
        run: &PreparedRun,
        analysis: Analysis,
        generated_at: &str,
        processing_time_secs: Value,
    ) -> (report: Report)
        requires
            analysis@.wait is Done,
        ensures
            json::value_tree(report.value) == report_tree(
                run.video(),
                generated_at@,
                tool.config.vlm.model@,
                analysis.manifest,
                json::value_tree(
                    tool::chosen_rate(run.plan().requested(), tool.config.sample_fps).json,
                ),
                analysis@.vlm_errors,
                json::value_tree(processing_time_secs),
                analysis@.results,
            ),
            json::value_tree(report.value).entry("sample_fps"@) == json::value_tree(
                match run.plan().requested() {
                    Some(own) => own.json,
                    None => tool.config.sample_fps.json,
                },
            ),
            json::value_tree(report.value).entry("results"@) == JsonView::Array(
                json::value_trees(analysis.results@),
            ),
            report.counts(analysis.manifest, analysis@.results.len(), analysis@.vlm_errors),
            json::value_tree(report.tally.processing_time_secs) == json::value_tree(
                processing_time_secs,
            ),
    {
        proof {
            what_a_report_holds(
                run.video(),
                generated_at@,
                tool.config.vlm.model@,
                analysis.manifest,
                json::value_tree(
                    tool::chosen_rate(run.plan().requested(), tool.config.sample_fps).json,
                ),
                analysis@.vlm_errors,
                json::value_tree(processing_time_secs),
                analysis@.results,
            );
        }
        let entries = analysis.results.len() as u64;
        let manifest = &analysis.manifest;
        let mut numbers = serde_json::Map::new();
        json::put_count(&mut numbers, "total_frames_processed", manifest.frames_sampled);
        json::put_count(&mut numbers, "frames_with_faces", manifest.frames_with_faces);
        json::put_count(&mut numbers, "vlm_request_errors", analysis.vlm_errors);
        json::put(&mut numbers, "processing_time_secs", processing_time_secs.clone());
        let note = match &manifest.detector_note {
            Some(note) => json::string_value(note.clone()),
            None => json::null_value(),
        };
        let remark = if manifest.frames_with_faces == 0 {
            json::string_value("no faces found in sampled frames".to_owned())
        } else {
            json::null_value()
        };
        let mut map = serde_json::Map::new();
        json::put_text(&mut map, "video_path", run.video_path());
        json::put_text(&mut map, "generated_at", generated_at);
        json::put_text(&mut map, "vlm_model", tool.config.vlm.model.as_str());
        json::put_text(&mut map, "detector_used", manifest.detector_used.as_str());
        json::put(&mut map, "detector_note", note);
        json::put(&mut map, "sample_fps", run.sample_rate(tool).json.clone());
        json::put(&mut map, "metadata", json::object_value(numbers));
        json::put(&mut map, "note", remark);
        json::put(&mut map, "results", json::array_value(analysis.results));
        Report {
            value: json::object_value(map),
            tally: Tally {
                detector_used: analysis.manifest.detector_used,
                frames_sampled: analysis.manifest.frames_sampled,
                frames_with_faces: analysis.manifest.frames_with_faces,
                entries,
                vlm_errors: analysis.vlm_errors,
                processing_time_secs,
            },
        }
    }

    /// The text of the report.
    pub fn render(&self) -> (text: String)
        ensures
            text@ == rendered(
                json::pretty_json(json::value_tree(self.value)),
                json::compact_json(json::value_tree(self.value)),
            ),
    {
        match json::to_pretty_text(&self.value) {
            Some(text) => text,
            None => compact_text(&self.value),
        }
    }
}

/// A value as JSON on one line. An object in which all numbers are whole, nested
/// no deeper than JSON is read, is found again in any reply that holds this text
/// with no `{` in front of it and no `}` behind it.
pub fn compact_text(value: &Value) -> (text: String)
    ensures
        text@ == json::compact_json(json::value_tree(*value)),
        forall|before: Seq<char>, after: Seq<char>|
            json::value_tree(*value) is Object && json::value_tree(*value).whole_within(
                json::MAX_DEPTH as nat,
            ) && !before.contains('{') && !after.contains('}') ==> #[trigger] reply::reply_object(
                before + text@ + after,
            ) == Some(json::value_tree(*value)),
{
    let text = json::to_compact_text(value);
    assert forall|before: Seq<char>, after: Seq<char>|
        json::value_tree(*value) is Object && json::value_tree(*value).whole_within(
            json::MAX_DEPTH as nat,
        ) && !before.contains('{') && !after.contains('}') implies #[trigger] reply::reply_object(
        before + text@ + after,
    ) == Some(json::value_tree(*value)) by {
        reply::fences_and_prose_are_passed_over(before, text@, after);
    }
    text
}

/// The name of the report file for a video whose file name, without its
/// extension, is `stem`.
pub open spec fn file_name(stem: Option<Seq<char>>) -> Seq<char> {
    match stem {
        Some(stem) => stem + "_analysis.json"@,
        None => "video_analysis.json"@,
    }
}

/// The name of the report file for a video whose file name, without its
/// extension, is `stem`.
pub fn report_file_name(stem: Option<&str>) -> (name: String)
    ensures
        name@ == file_name(
            match stem {
                Some(stem) => Some(stem@),
                None => None,
            },
        ),
{
    match stem {
        Some(stem) => stem.to_owned().concat("_analysis.json"),
        None => "video_analysis.json".to_owned(),
    }
}

/// What the user is told where the output directory cannot be created.
pub fn output_dir_error(dir: &str, error: &str) -> (message: String)
    ensures
        message@ == "failed to create output directory "@ + dir@ + ": "@ + error@,
{
    let mut message = "failed to create output directory ".to_owned();
    message.append(dir);
    message.append(": ");
    message.append(error);
    message
}

/// What the user is told where the report cannot be written.
pub fn report_write_error(output_file: &str, error: &str) -> (message: String)
    ensures
        message@ == "failed to write analysis report "@ + output_file@ + ": "@ + error@,
{
    let mut message = "failed to write analysis report ".to_owned();
    message.append(output_file);
    message.append(": ");
    message.append(error);
    message
}

/// Law: the report and the summary of a run agree on the detector, on every
/// number, and on how many entries there are.
pub proof fn report_and_summary_agree(
    video: Seq<char>,
    generated_at: Seq<char>,
    model: Seq<char>,
    manifest: DetectionManifest,
    sample_fps: JsonView,
    vlm_errors: nat,
    processing_time_secs: JsonView,
    results: Seq<JsonView>,
    report: Report,
    output_file: Seq<char>,
)
    requires
        report.counts(manifest, results.len(), vlm_errors),
        json::value_tree(report.tally.processing_time_secs) == processing_time_secs,
    ensures
        ({
            let tree = report_tree(
                video,
                generated_at,
                model,
                manifest,
                sample_fps,
                vlm_errors,
                processing_time_secs,
                results,
            );
            let summary = report.tally.summary_tree(output_file);
            let numbers = tree.entry("metadata"@);
            &&& tree.entry("detector_used"@) == summary.entry("detector_used"@)
            &&& numbers.entry("total_frames_processed"@) == summary.entry(
                "total_frames_processed"@,
            )
            &&& numbers.entry("frames_with_faces"@) == summary.entry("frames_with_faces"@)
            &&& numbers.entry("vlm_request_errors"@) == summary.entry("vlm_request_errors"@)
            &&& numbers.entry("processing_time_secs"@) == summary.entry("processing_time_secs"@)
            &&& tree.entry("results"@) == JsonView::Array(results)
            &&& summary.entry("timestamps_analyzed"@) == json::count(results.len())
            &&& summary.entry("output_file"@) == JsonView::Str(output_file)
        }),
{
    reveal_strlit("detector_used");
    reveal_strlit("detector_note");
    reveal_strlit("sample_fps");
    reveal_strlit("metadata");
    reveal_strlit("note");
    reveal_strlit("results");
    reveal_strlit("output_file");
    reveal_strlit("total_frames_processed");
    reveal_strlit("frames_with_faces");
    reveal_strlit("timestamps_analyzed");
    reveal_strlit("vlm_request_errors");
    reveal_strlit("processing_time_secs");
    assert("detector_used"@[9] != "detector_note"@[9]);
    assert("detector_used"@.len() == 13 && "sample_fps"@.len() == 10 && "metadata"@.len() == 8);
    assert("note"@.len() == 4 && "results"@.len() == 7 && "output_file"@.len() == 11);
    assert("total_frames_processed"@.len() == 22 && "frames_with_faces"@.len() == 17);
    assert("timestamps_analyzed"@.len() == 19 && "vlm_request_errors"@.len() == 18);
    assert("processing_time_secs"@.len() == 20);
}

/// Law: the report of a video without any face says so, and that of any other
/// video does not.
pub proof fn videos_without_faces_are_remarked_on(
    video: Seq<char>,
    generated_at: Seq<char>,
    model: Seq<char>,
    manifest: DetectionManifest,
    sample_fps: JsonView,
    vlm_errors: nat,
    processing_time_secs: JsonView,
    results: Seq<JsonView>,
)
    ensures
        report_tree(
            video,
            generated_at,
            model,
            manifest,
            sample_fps,
            vlm_errors,
            processing_time_secs,
            results,
        ).entry("note"@) == (if manifest.frames_with_faces == 0 {
            JsonView::Str("no faces found in sampled frames"@)
        } else {
            JsonView::Null
        }),
{
    reveal_strlit("note");
    reveal_strlit("results");
    assert("note"@.len() != "results"@.len());
}

/// The keys of a report and of its numbers are all different where they stand
/// side by side.
proof fn lemma_report_keys()
    ensures
        ({
            let keys = seq![
                "video_path"@,
                "generated_at"@,
                "vlm_model"@,
                "detector_used"@,
                "detector_note"@,
                "sample_fps"@,
                "metadata"@,
                "note"@,
                "results"@,
            ];
            forall|i: int, j: int| 0 <= i < j < 9 ==> #[trigger] keys[i] != #[trigger] keys[j]
        }),
        ({
            let keys = seq![
                "total_frames_processed"@,
                "frames_with_faces"@,
                "vlm_request_errors"@,
                "processing_time_secs"@,
                "output_file"@,
                "detector_used"@,
                "timestamps_analyzed"@,
            ];
            forall|i: int, j: int| 0 <= i < j < 7 ==> #[trigger] keys[i] != #[trigger] keys[j]
        }),
{
    reveal_strlit("video_path");
    reveal_strlit("generated_at");
    reveal_strlit("vlm_model");
    reveal_strlit("detector_used");
    reveal_strlit("detector_note");
    reveal_strlit("sample_fps");
    reveal_strlit("metadata");
    reveal_strlit("note");
    reveal_strlit("results");
    reveal_strlit("output_file");
    reveal_strlit("total_frames_processed");
    reveal_strlit("frames_with_faces");
    reveal_strlit("timestamps_analyzed");
    reveal_strlit("vlm_request_errors");
    reveal_strlit("processing_time_secs");
    assert("detector_used"@[9] != "detector_note"@[9] && "video_path"@[0] != "sample_fps"@[0]);
    assert("video_path"@.len() == 10 && "generated_at"@.len() == 12 && "vlm_model"@.len() == 9);
    assert("detector_used"@.len() == 13 && "detector_note"@.len() == 13);
    assert("sample_fps"@.len() == 10 && "metadata"@.len() == 8);
    assert("note"@.len() == 4 && "results"@.len() == 7 && "output_file"@.len() == 11);
    assert("total_frames_processed"@.len() == 22 && "frames_with_faces"@.len() == 17);
    assert("timestamps_analyzed"@.len() == 19 && "vlm_request_errors"@.len() == 18);
    assert("processing_time_secs"@.len() == 20);
}

/// Law: what a report holds: the video, when it was made, the model, the detector
/// and its note, the rate, the numbers of the run, a remark, and all entries.
/// There is nothing else in it.
pub proof fn what_a_report_holds(
    video: Seq<char>,
    generated_at: Seq<char>,
    model: Seq<char>,
    manifest: DetectionManifest,
    sample_fps: JsonView,
    vlm_errors: nat,
    processing_time_secs: JsonView,
    results: Seq<JsonView>,
)
    ensures
        ({
            let report = report_tree(
                video,
                generated_at,
                model,
                manifest,
                sample_fps,
                vlm_errors,
                processing_time_secs,
                results,
            );
            let numbers = report.entry("metadata"@);
            &&& report.keys() == set![
                "video_path"@,
                "generated_at"@,
                "vlm_model"@,
                "detector_used"@,
                "detector_note"@,
                "sample_fps"@,
                "metadata"@,
                "note"@,
                "results"@,
            ]
            &&& report.entry("video_path"@) == JsonView::Str(video)
            &&& report.entry("generated_at"@) == JsonView::Str(generated_at)
            &&& report.entry("vlm_model"@) == JsonView::Str(model)
            &&& report.entry("detector_used"@) == JsonView::Str(manifest.detector_used@)
            &&& manifest.detector_note matches Some(note) ==> report.entry("detector_note"@)
                == JsonView::Str(note@)
            &&& manifest.detector_note is None ==> report.entry("detector_note"@) == JsonView::Null
            &&& report.entry("sample_fps"@) == sample_fps
            &&& numbers.keys() == set![
                "total_frames_processed"@,
                "frames_with_faces"@,
                "vlm_request_errors"@,
                "processing_time_secs"@,
            ]
            &&& numbers.entry("total_frames_processed"@) == json::count(
                manifest.frames_sampled as nat,
            )
            &&& numbers.entry("frames_with_faces"@) == json::count(
                manifest.frames_with_faces as nat,
            )
            &&& numbers.entry("vlm_request_errors"@) == json::count(vlm_errors)
            &&& numbers.entry("processing_time_secs"@) == processing_time_secs
            &&& report.entry("results"@) == JsonView::Array(results)
        }),
{
    lemma_report_keys();
    let report = report_tree(
        video,
        generated_at,
        model,
        manifest,
        sample_fps,
        vlm_errors,
        processing_time_secs,
        results,
    );
    let report_keys = seq![
        "video_path"@,
        "generated_at"@,
        "vlm_model"@,
        "detector_used"@,
        "detector_note"@,
        "sample_fps"@,
        "metadata"@,
        "note"@,
        "results"@,
    ];
    let number_keys = seq![
        "total_frames_processed"@,
        "frames_with_faces"@,
        "vlm_request_errors"@,
        "processing_time_secs"@,
        "output_file"@,
        "detector_used"@,
        "timestamps_analyzed"@,
    ];
    assert(report_keys[0] == "video_path"@ && report_keys[1] == "generated_at"@ && report_keys[2]
        == "vlm_model"@ && report_keys[3] == "detector_used"@ && report_keys[4]
        == "detector_note"@ && report_keys[5] == "sample_fps"@ && report_keys[6] == "metadata"@
        && report_keys[7] == "note"@ && report_keys[8] == "results"@);
    assert(number_keys[0] == "total_frames_processed"@ && number_keys[1] == "frames_with_faces"@
        && number_keys[2] == "vlm_request_errors"@ && number_keys[3] == "processing_time_secs"@);
    assert(report.keys() =~= set![
        "video_path"@,
        "generated_at"@,
        "vlm_model"@,
        "detector_used"@,
        "detector_note"@,
        "sample_fps"@,
        "metadata"@,
        "note"@,
        "results"@,
    ]);
    assert(report.entry("metadata"@).keys() =~= set![
        "total_frames_processed"@,
        "frames_with_faces"@,
        "vlm_request_errors"@,
        "processing_time_secs"@,
    ]);
}

/// Law: what a summary holds, as data and in words. There is nothing else in it.
pub proof fn what_a_summary_holds(tally: Tally, output_file: Seq<char>)
    ensures
        ({
            let summary = tally.summary_tree(output_file);
            &&& summary.keys() == set![
                "output_file"@,
                "detector_used"@,
                "total_frames_processed"@,
                "frames_with_faces"@,
                "timestamps_analyzed"@,
                "vlm_request_errors"@,
                "processing_time_secs"@,
            ]
            &&& summary.entry("output_file"@) == JsonView::Str(output_file)
            &&& summary.entry("detector_used"@) == JsonView::Str(tally.detector_used@)
            &&& summary.entry("total_frames_processed"@) == json::count(
                tally.frames_sampled as nat,
            )
            &&& summary.entry("frames_with_faces"@) == json::count(tally.frames_with_faces as nat)
            &&& summary.entry("timestamps_analyzed"@) == json::count(tally.entries as nat)
            &&& summary.entry("vlm_request_errors"@) == json::count(tally.vlm_errors as nat)
            &&& summary.entry("processing_time_secs"@) == json::value_tree(
                tally.processing_time_secs,
            )
        }),
        tally.frames_with_faces == 0 ==> tally.summary_text(output_file) == "No faces found in "@
            + text::decimal(tally.frames_sampled as nat) + " sampled frames. Report written to "@
            + output_file,
        tally.frames_with_faces > 0 ==> tally.summary_text(output_file) == "Analyzed "@
            + text::decimal(tally.entries as nat) + " timestamp(s) with faces across "@
            + text::decimal(tally.frames_sampled as nat) + " sampled frames ("@ + text::decimal(
            tally.vlm_errors as nat,
        ) + " VLM error(s)). Report written to "@ + output_file,
{
    lemma_report_keys();
    let number_keys = seq![
        "total_frames_processed"@,
        "frames_with_faces"@,
        "vlm_request_errors"@,
        "processing_time_secs"@,
        "output_file"@,
        "detector_used"@,
        "timestamps_analyzed"@,
    ];
    assert(number_keys[0] == "total_frames_processed"@ && number_keys[1] == "frames_with_faces"@
        && number_keys[2] == "vlm_request_errors"@ && number_keys[3] == "processing_time_secs"@
        && number_keys[4] == "output_file"@ && number_keys[5] == "detector_used"@
        && number_keys[6] == "timestamps_analyzed"@);
    assert(tally.summary_tree(output_file).keys() =~= set![
        "output_file"@,
        "detector_used"@,
        "total_frames_processed"@,
        "frames_with_faces"@,
        "timestamps_analyzed"@,
        "vlm_request_errors"@,
        "processing_time_secs"@,
    ]);
}

/// Law: the numbers of a finished run are those of its manifest and its entries.
pub proof fn the_numbers_of_a_run(
    report: Report,
    manifest: DetectionManifest,
    entries: nat,
    vlm_errors: nat,
)
    ensures
        report.counts(manifest, entries, vlm_errors) <==> {
            &&& report.tally.detector_used@ == manifest.detector_used@
            &&& report.tally.frames_sampled == manifest.frames_sampled
            &&& report.tally.frames_with_faces == manifest.frames_with_faces
            &&& report.tally.entries == entries
            &&& report.tally.vlm_errors == vlm_errors
        },
{
}

/// Law: a report is written indented, and compactly only where that fails.
pub proof fn reports_are_indented(pretty: Seq<char>, compact: Seq<char>)
    ensures
        rendered(Some(pretty), compact) == pretty,
        rendered(None, compact) == compact,
{
}

/// Law: a report file is named after its video, and reports of videos that are
/// named differently are too.
pub proof fn report_files_are_named_after_their_videos(stem: Seq<char>, other: Seq<char>)
    ensures
        file_name(Some(stem)) == stem + "_analysis.json"@,
        file_name(None) == "video_analysis.json"@,
        stem != other ==> file_name(Some(stem)) != file_name(Some(other)),
{
    let tail = "_analysis.json"@;
    if stem + tail == other + tail {
        assert((stem + tail).len() == (other + tail).len());
        assert((stem + tail).take(stem.len() as int) =~= stem);
        assert((other + tail).take(other.len() as int) =~= other);
    }
}

} // verus!

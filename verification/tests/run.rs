use serde_json::Value;
use video_analysis::analysis::{judge, judge_object, pin_timestamp, Action, Analysis, Event, Verdict};
use video_analysis::config::{
    FaceDetectorKind, SampleRate, VideoAnalysisConfig, VideoAnalysisVlmConfig,
};
use video_analysis::detection::{
    helper_output, DetectedFace, DetectionManifest, DetectionSample, HelperExit, HelperFailure,
};
use video_analysis::report::{output_dir_error, report_file_name, report_write_error, Report};
use video_analysis::tool::{PreparedRun, Resolution, VideoAnalysisTool};
use video_analysis::vlm::VlmError;

const BASE_URL: &str = "http://10.0.0.2:8000";

fn json(text: &str) -> Value {
    serde_json::from_str(text).unwrap()
}

fn tool() -> VideoAnalysisTool {
    VideoAnalysisTool::new(VideoAnalysisConfig {
        sample_fps: SampleRate {
            bits: 1f64.to_bits(),
            text: "1".to_string(),
            json: Value::from(1.0),
        },
        output_dir: "./analysis_output".to_string(),
        face_detector: FaceDetectorKind::ResnetSsd,
        models_dir: "./models".to_string(),
        python_bin: "python3".to_string(),
        vlm: VideoAnalysisVlmConfig {
            base_url: BASE_URL.to_string(),
            model: "test-vlm".to_string(),
            api_key: None,
            timeout_secs: 120,
        },
    })
}

fn prepared(tool: &VideoAnalysisTool) -> PreparedRun {
    let plan = match tool.plan(&json(r#"{"path": "video.mp4"}"#), None) {
        Ok(plan) => plan,
        Err(refusal) => panic!("{}", refusal.message()),
    };
    let located = plan
        .located(Resolution::Found("/videos/video.mp4".to_string()))
        .ok()
        .unwrap();
    let admitted = located.admitted(true).ok().unwrap();
    admitted.prepared(Ok(())).ok().unwrap()
}

/// A manifest with one sample for each list of face ids.
fn manifest(samples: &[&[u32]]) -> DetectionManifest {
    DetectionManifest {
        detector_used: "yunet".to_string(),
        detector_note: None,
        frames_sampled: 120,
        frames_with_faces: samples.len() as u64,
        samples: samples
            .iter()
            .enumerate()
            .map(|(index, faces)| DetectionSample {
                timestamp: format!("t{index}"),
                faces: faces
                    .iter()
                    .map(|face_id| DetectedFace {
                        face_id: *face_id,
                        crop_path: format!("{index}/{face_id}.jpg"),
                    })
                    .collect(),
            })
            .collect(),
    }
}

fn sample_with_one_face(crop_path: &str) -> DetectionSample {
    DetectionSample {
        timestamp: "00:00:01.000".to_string(),
        faces: vec![DetectedFace {
            face_id: 1,
            crop_path: crop_path.to_string(),
        }],
    }
}

/// A manifest with one sample.
fn manifest_of(sample: DetectionSample) -> DetectionManifest {
    DetectionManifest {
        samples: vec![sample],
        ..manifest(&[&[1]])
    }
}

fn read(bytes: &[u8]) -> Event {
    Event::CropRead(Ok(bytes.to_vec()))
}

fn unread(error: &str) -> Event {
    Event::CropRead(Err(error.to_string()))
}

fn reply(text: &str) -> Event {
    Event::Answered(judge(Ok(text.to_string())))
}

fn failure(error: VlmError) -> Event {
    Event::Answered(judge(Err(error)))
}

fn path_of(action: &Action) -> &str {
    match action {
        Action::ReadCrop { path } => path,
        _ => panic!("no crop is wanted"),
    }
}

fn messages_of(action: &Action) -> &[Value] {
    match action {
        Action::PostChat { messages } => messages,
        _ => panic!("no request is wanted"),
    }
}

fn is_done(action: &Action) -> bool {
    matches!(action, Action::Conclude)
}

#[test]
fn analyze_sample_parses_first_reply() {
    let (analysis, action) = Analysis::start(manifest_of(sample_with_one_face("unused.jpg")));
    assert_eq!(path_of(&action), "unused.jpg");
    let (analysis, action) = analysis.step(BASE_URL, read(b"hi"));
    let messages = messages_of(&action);
    assert_eq!(messages.len(), 2);
    assert_eq!(
        messages[1]["content"][1]["image_url"]["url"],
        "data:image/jpeg;base64,aGk="
    );
    let (analysis, action) = analysis.step(
        BASE_URL,
        reply(r#"{"timestamp":"x","faces":[],"plausible_events":[]}"#),
    );
    assert!(is_done(&action));
    assert!(analysis.results[0]["faces"].as_array().is_some());
    assert_eq!(analysis.results[0]["timestamp"], "00:00:01.000");
    assert_eq!(analysis.vlm_errors, 0);
}

#[test]
fn analyze_sample_retries_malformed_json_once() {
    let (analysis, _) = Analysis::start(manifest_of(sample_with_one_face("unused.jpg")));
    let (analysis, first) = analysis.step(BASE_URL, read(b"hi"));
    let (analysis, second) = analysis.step(BASE_URL, reply("Sure! The people look happy."));
    let messages = messages_of(&second);
    assert_eq!(messages.len(), 4);
    assert_eq!(messages[..2], messages_of(&first)[..]);
    assert_eq!(messages[2]["content"], "Sure! The people look happy.");
    let (analysis, action) = analysis.step(
        BASE_URL,
        reply(r#"{"timestamp":"x","faces":[{"face_id":1}],"plausible_events":["tv"]}"#),
    );
    assert!(is_done(&action));
    assert_eq!(analysis.results[0]["plausible_events"][0], "tv");
}

#[test]
fn analyze_sample_reports_malformed_after_retry() {
    let mut found = manifest_of(sample_with_one_face("unused.jpg"));
    found.samples.push(sample_with_one_face("next.jpg"));
    let (analysis, _) = Analysis::start(found);
    let (analysis, _) = analysis.step(BASE_URL, read(b"hi"));
    let (analysis, _) = analysis.step(BASE_URL, reply("still not json"));
    let (analysis, action) = analysis.step(BASE_URL, reply("still not json"));
    // The run goes on with the next sample.
    assert_eq!(path_of(&action), "next.jpg");
    assert_eq!(
        analysis.results[0],
        json(
            r#"{"timestamp": "00:00:01.000", "error": "VLM returned malformed JSON after retry: still not json"}"#
        )
    );
    assert_eq!(analysis.vlm_errors, 1);
}

#[test]
fn malformed_replies_are_cut_short() {
    let (analysis, _) = Analysis::start(manifest(&[&[1]]));
    let (analysis, _) = analysis.step(BASE_URL, read(b""));
    let (analysis, _) = analysis.step(BASE_URL, reply("no"));
    let (analysis, _) = analysis.step(BASE_URL, reply(&"é".repeat(400)));
    assert_eq!(
        analysis.results[0]["error"],
        format!("VLM returned malformed JSON after retry: {}", "é".repeat(300))
    );
}

#[test]
fn a_second_request_can_fail_as_well() {
    let (analysis, _) = Analysis::start(manifest(&[&[1]]));
    let (analysis, _) = analysis.step(BASE_URL, read(b"a"));
    let (analysis, _) = analysis.step(BASE_URL, reply("no"));
    let (analysis, action) =
        analysis.step(BASE_URL, failure(VlmError::Request("HTTP 500".to_string())));
    assert!(is_done(&action));
    assert_eq!(
        analysis.results[0],
        json(r#"{"timestamp": "t0", "error": "VLM request failed: HTTP 500"}"#)
    );
}

#[test]
fn unreachable_server_aborts_the_run() {
    let (analysis, _) = Analysis::start(manifest(&[&[1], &[1]]));
    let (analysis, _) = analysis.step(BASE_URL, read(b"a"));
    let (analysis, action) =
        analysis.step(BASE_URL, failure(VlmError::Unreachable("refused".to_string())));
    match action {
        Action::Abort { error } => assert_eq!(
            error,
            "VLM server at http://10.0.0.2:8000 unreachable: refused. Check \
             video_analysis.vlm.base_url and that the server is running."
        ),
        _ => panic!("the run goes on"),
    }
    assert!(analysis.results.is_empty());
}

#[test]
fn crops_that_cannot_be_read_are_recorded() {
    let (analysis, _) = Analysis::start(manifest(&[&[1, 2, 3], &[], &[4], &[5]]));
    let (analysis, _) = analysis.step(BASE_URL, unread("gone"));
    let (analysis, action) = analysis.step(BASE_URL, read(b"\xff\xfe"));
    assert_eq!(path_of(&action), "0/3.jpg");
    let (analysis, action) = analysis.step(BASE_URL, unread("busy"));
    // The readable crop of the sample is still asked about.
    let text = messages_of(&action)[1]["content"][0]["text"].as_str().unwrap().to_string();
    assert!(text.contains("1 cropped face(s) follow, in face_id order (face_id 2)"));
    assert_eq!(
        messages_of(&action)[1]["content"][1]["image_url"]["url"],
        "data:image/jpeg;base64,//4="
    );
    let (analysis, action) = analysis.step(BASE_URL, reply("{}"));
    assert_eq!(path_of(&action), "2/4.jpg");
    // A sample without any readable crop is not asked about.
    let (analysis, action) = analysis.step(BASE_URL, unread("gone"));
    assert_eq!(path_of(&action), "3/5.jpg");
    let (analysis, _) = analysis.step(BASE_URL, read(b"x"));
    let (analysis, action) = analysis.step(BASE_URL, reply("{\"timestamp\": 5, \"k\": null}"));
    assert!(is_done(&action));
    let expected = json(
        r#"[
            {"timestamp": "t0", "error": "failed to read face crop: gone"},
            {"timestamp": "t0", "error": "failed to read face crop: busy"},
            {"timestamp": "t0"},
            {"timestamp": "t2", "error": "failed to read face crop: gone"},
            {"timestamp": "t3", "k": null}
        ]"#,
    );
    assert_eq!(Value::Array(analysis.results), expected);
    assert_eq!(analysis.vlm_errors, 3);
}

#[test]
fn every_sample_with_a_readable_crop_has_an_answer() {
    let answers = [
        reply(r#"{"faces": []}"#),
        failure(VlmError::Request("busy".to_string())),
        reply(r#"{"faces": [1]}"#),
    ];
    let (mut analysis, mut action) = Analysis::start(manifest(&[&[1, 2], &[3], &[4]]));
    for answer in answers {
        while matches!(action, Action::ReadCrop { .. }) {
            (analysis, action) = analysis.step(BASE_URL, read(b"crop"));
        }
        (analysis, action) = analysis.step(BASE_URL, answer);
    }
    assert!(is_done(&action));
    assert_eq!(analysis.results.len(), 3);
    assert_eq!(analysis.results[0], json(r#"{"timestamp": "t0", "faces": []}"#));
    assert_eq!(
        analysis.results[1],
        json(r#"{"timestamp": "t1", "error": "VLM request failed: busy"}"#)
    );
    assert_eq!(analysis.results[2], json(r#"{"timestamp": "t2", "faces": [1]}"#));

    // One crop of two is enough for an answer, which stands behind the failure.
    let (analysis, _) = Analysis::start(manifest(&[&[1, 2]]));
    let (analysis, _) = analysis.step(BASE_URL, unread("gone"));
    let (analysis, _) = analysis.step(BASE_URL, read(b"crop"));
    let (analysis, action) = analysis.step(BASE_URL, reply("{}"));
    assert!(is_done(&action));
    assert_eq!(analysis.results.len(), 2);
    assert_eq!(analysis.results[1], json(r#"{"timestamp": "t0"}"#));

    // Without any, there is none.
    let (analysis, _) = Analysis::start(manifest(&[&[1]]));
    let (analysis, action) = analysis.step(BASE_URL, unread("gone"));
    assert!(is_done(&action));
    assert_eq!(analysis.results.len(), 1);
}

#[test]
fn errors_and_manifests_can_be_shown_for_debugging() {
    assert_eq!(
        format!("{:?}", VlmError::Request("busy".to_string())),
        r#"Request("busy")"#
    );
    assert_eq!(
        format!("{:?}", sample_with_one_face("a.jpg")),
        r#"DetectionSample { timestamp: "00:00:01.000", faces: [DetectedFace { face_id: 1, crop_path: "a.jpg" }] }"#
    );
    assert!(format!("{:?}", manifest(&[])).starts_with("DetectionManifest { detector_used: \"yunet\""));
}

#[test]
fn nothing_is_asked_without_faces() {
    let (analysis, action) = Analysis::start(manifest(&[]));
    assert!(is_done(&action));
    assert!(analysis.results.is_empty());
    let (_, action) = Analysis::start(manifest(&[&[], &[]]));
    assert!(is_done(&action));
}

#[test]
fn runs_end_after_every_face_and_two_requests_per_sample() {
    let (mut analysis, mut action) = Analysis::start(manifest(&[&[1, 2], &[], &[3]]));
    let mut paths = Vec::new();
    let mut requests = Vec::new();
    let mut events = 0;
    loop {
        let event = match &action {
            Action::ReadCrop { path } => {
                paths.push(path.clone());
                read(b"x")
            }
            Action::PostChat { messages } => {
                requests.push((analysis.sample, messages.len()));
                reply("no")
            }
            Action::Conclude => break,
            Action::Abort { error } => panic!("{error}"),
        };
        assert!(analysis.accepts(&event));
        assert!(!analysis.is_done());
        events += 1;
        (analysis, action) = analysis.step(BASE_URL, event);
    }
    assert!(analysis.is_done());
    assert_eq!(events, 3 + 2 * 2);
    assert_eq!(paths, ["0/1.jpg", "0/2.jpg", "2/3.jpg"]);
    assert_eq!(requests, [(0, 2), (0, 4), (2, 2), (2, 4)]);
    assert_eq!(analysis.vlm_errors, 2);
    assert_eq!(analysis.results[1]["timestamp"], "t2");
}

#[test]
fn only_what_is_waited_for_is_accepted() {
    let (analysis, _) = Analysis::start(manifest(&[&[1]]));
    assert!(analysis.accepts(&read(b"x")));
    assert!(analysis.accepts(&unread("gone")));
    assert!(!analysis.accepts(&reply("{}")));
    let (analysis, _) = analysis.step(BASE_URL, read(b"x"));
    assert!(!analysis.accepts(&read(b"x")));
    assert!(!analysis.accepts(&unread("gone")));
    assert!(analysis.accepts(&reply("{}")));
    let (analysis, _) = analysis.step(BASE_URL, reply("no"));
    assert!(analysis.accepts(&reply("{}")));
    let (analysis, _) =
        analysis.step(BASE_URL, failure(VlmError::Unreachable("refused".to_string())));
    assert!(!analysis.accepts(&reply("{}")));
    assert!(!analysis.accepts(&read(b"x")));
    assert!(!analysis.is_done());
}

#[test]
fn crops_are_sent_as_standard_base64() {
    let cases: [(&[u8], &str); 9] = [
        (b"", ""),
        (b"f", "Zg=="),
        (b"fo", "Zm8="),
        (b"foo", "Zm9v"),
        (b"foob", "Zm9vYg=="),
        (b"fooba", "Zm9vYmE="),
        (b"foobar", "Zm9vYmFy"),
        (b"\xfb\xff\xbf", "+/+/"),
        (b"\x00\x10\x83\x10\x51\x87", "ABCDEFGH"),
    ];
    for (bytes, text) in cases {
        let (analysis, _) = Analysis::start(manifest(&[&[9]]));
        let (analysis, _) = analysis.step(BASE_URL, read(bytes));
        assert_eq!(analysis.crops, vec![(9, text.to_string())]);
    }
}

#[test]
fn base64_text_is_as_stated() {
    let alphabet: Vec<char> =
        "ABCDEFGHIJKLMNOPQRSTUVWXYZabcdefghijklmnopqrstuvwxyz0123456789+/".chars().collect();
    let bytes: Vec<u8> = (0..=255u32).chain(0..=255).map(|n| (n * 37 % 256) as u8).collect();
    for length in 0..bytes.len() {
        let bytes = &bytes[..length];
        let expected: String = (0..4 * ((length + 2) / 3))
            .map(|k| {
                if 6 * k >= 8 * length {
                    return '=';
                }
                let i = 6 * k / 8;
                let high = bytes[i] as usize;
                let low = if i + 1 < length { bytes[i + 1] as usize } else { 0 };
                let below = [1024, 16, 64, 256][k % 4];
                alphabet[(high * 256 + low) / below % 64]
            })
            .collect();
        let (analysis, _) = Analysis::start(manifest(&[&[9]]));
        let (analysis, _) = analysis.step(BASE_URL, read(bytes));
        assert_eq!(analysis.crops[0].1, expected);
    }
}

#[test]
fn verdicts() {
    assert!(matches!(judge(Ok("x {\"a\": 1} y".to_string())), Verdict::Object(_)));
    assert!(matches!(judge(Ok("x".to_string())), Verdict::Unparsed(reply) if reply == "x"));
    assert!(matches!(
        judge(Err(VlmError::Request("e".to_string()))),
        Verdict::Failed(VlmError::Request(_))
    ));
    assert!(matches!(judge_object("x".to_string(), None), Verdict::Unparsed(_)));
    assert!(matches!(
        judge_object("x".to_string(), Some(json("{}"))),
        Verdict::Object(_)
    ));
}

#[test]
fn timestamps_are_pinned() {
    assert_eq!(
        pin_timestamp(json(r#"{"timestamp": "00:01", "a": [1]}"#), "00:00:01.000"),
        json(r#"{"timestamp": "00:00:01.000", "a": [1]}"#)
    );
    assert_eq!(pin_timestamp(json("[1]"), "t"), json("[1]"));
}

#[test]
fn report_and_summary_of_a_run() {
    let tool = tool();
    let run = prepared(&tool);
    let mut found = manifest(&[&[1], &[2]]);
    found.detector_note = Some("yunet weights missing".to_string());
    let (analysis, _) = Analysis::start(found);
    let (analysis, _) = analysis.step(BASE_URL, read(b"a"));
    let (analysis, _) = analysis.step(BASE_URL, reply("{\"faces\": []}"));
    let (analysis, action) = analysis.step(BASE_URL, unread("gone"));
    assert!(is_done(&action));
    let report = Report::compile(
        &tool,
        &run,
        analysis,
        "2025-01-01T00:00:00+00:00",
        Value::from(88.4),
    );
    assert_eq!(
        report.value,
        json(
            r#"{
                "video_path": "/videos/video.mp4",
                "generated_at": "2025-01-01T00:00:00+00:00",
                "vlm_model": "test-vlm",
                "detector_used": "yunet",
                "detector_note": "yunet weights missing",
                "sample_fps": 1.0,
                "metadata": {
                    "total_frames_processed": 120,
                    "frames_with_faces": 2,
                    "vlm_request_errors": 1,
                    "processing_time_secs": 88.4
                },
                "note": null,
                "results": [
                    {"timestamp": "t0", "faces": []},
                    {"timestamp": "t1", "error": "failed to read face crop: gone"}
                ]
            }"#
        )
    );
    let summary = report.tally.summary("/out/video_analysis.json");
    assert_eq!(
        summary.value,
        json(
            r#"{
                "output_file": "/out/video_analysis.json",
                "detector_used": "yunet",
                "total_frames_processed": 120,
                "frames_with_faces": 2,
                "timestamps_analyzed": 2,
                "vlm_request_errors": 1,
                "processing_time_secs": 88.4
            }"#
        )
    );
    assert_eq!(
        summary.text,
        "Analyzed 2 timestamp(s) with faces across 120 sampled frames (1 VLM error(s)). \
         Report written to /out/video_analysis.json"
    );
    let text = report.render();
    assert_eq!(serde_json::from_str::<Value>(&text).unwrap(), report.value);
    assert!(text.starts_with("{\n  \"detector_note\": \"yunet weights missing\",\n"));
}

#[test]
fn report_of_a_video_without_faces() {
    let tool = tool();
    let run = prepared(&tool);
    let mut empty = manifest(&[]);
    empty.frames_sampled = u64::MAX;
    let (analysis, _) = Analysis::start(empty);
    let report = Report::compile(&tool, &run, analysis, "now", Value::from(0.5));
    assert_eq!(report.value["note"], "no faces found in sampled frames");
    assert_eq!(report.value["detector_note"], Value::Null);
    assert_eq!(report.value["results"], json("[]"));
    assert_eq!(
        report.value["metadata"]["total_frames_processed"],
        Value::from(u64::MAX)
    );
    assert_eq!(
        report.tally.summary("r.json").text,
        "No faces found in 18446744073709551615 sampled frames. Report written to r.json"
    );
}

#[test]
fn report_files() {
    assert_eq!(report_file_name(Some("holiday")), "holiday_analysis.json");
    assert_eq!(report_file_name(Some("")), "_analysis.json");
    assert_eq!(report_file_name(None), "video_analysis.json");
    assert_eq!(
        output_dir_error("/out", "denied"),
        "failed to create output directory /out: denied"
    );
    assert_eq!(
        report_write_error("/out/a.json", "full"),
        "failed to write analysis report /out/a.json: full"
    );
}

#[test]
fn helper_failures_in_words() {
    let cases = [
        (
            HelperFailure::Staging("e".to_string()),
            "failed to stage detection helper: e",
        ),
        (
            HelperFailure::CropsDir("e".to_string()),
            "failed to create crop directory: e",
        ),
        (
            HelperFailure::Launch("e".to_string()),
            "failed to launch face-detection helper via 'py': e. Set video_analysis.python_bin to \
             a Python 3 interpreter with opencv-python-headless installed. Install it with: \
             python3 -m pip install opencv-python-headless",
        ),
        (
            HelperFailure::Manifest("e".to_string()),
            "face-detection helper produced invalid manifest: e",
        ),
        (
            HelperFailure::Exit {
                status: "exit status: 2".to_string(),
                stderr: b"\n no weights: r\xc3\xa9seau \n".to_vec(),
            },
            "face detection failed (exit status: 2): no weights: réseau",
        ),
        (
            HelperFailure::Exit {
                status: "exit status: 2".to_string(),
                stderr: b"a\xffb".to_vec(),
            },
            "face detection failed (exit status: 2): a\u{fffd}b",
        ),
    ];
    for (failure, message) in cases {
        assert_eq!(failure.message("py"), message);
    }
    let exit = HelperFailure::Exit {
        status: "s".to_string(),
        stderr: Vec::new(),
    };
    assert_eq!(exit.message_reading("py", " x "), "face detection failed (s): x");
}

#[test]
fn helper_output_is_kept_on_success_only() {
    let exit = |success| HelperExit {
        success,
        status: "exit status: 1".to_string(),
        stdout: b"{}".to_vec(),
        stderr: b"e".to_vec(),
    };
    assert!(matches!(helper_output(exit(true)), Ok(stdout) if stdout == b"{}"));
    assert!(matches!(
        helper_output(exit(false)),
        Err(HelperFailure::Exit { status, stderr }) if status == "exit status: 1" && stderr == b"e"
    ));
}

use serde_json::Value;
use video_analysis::config::{
    FaceDetectorKind, SampleRate, VideoAnalysisConfig, VideoAnalysisVlmConfig,
};
use video_analysis::detection::HelperArgument;
use video_analysis::tool::{
    rate_argument, Plan, PreparedRun, Refusal, Resolution, VideoAnalysisTool,
};

fn rate(fps: f64) -> SampleRate {
    SampleRate {
        bits: fps.to_bits(),
        text: fps.to_string(),
        json: Value::from(fps),
    }
}

fn config(base_url: &str, model: &str, fps: f64) -> VideoAnalysisConfig {
    VideoAnalysisConfig {
        sample_fps: rate(fps),
        output_dir: "./analysis_output".to_string(),
        face_detector: FaceDetectorKind::Yunet,
        models_dir: "./models".to_string(),
        python_bin: "python3".to_string(),
        vlm: VideoAnalysisVlmConfig {
            base_url: base_url.to_string(),
            model: model.to_string(),
            api_key: None,
            timeout_secs: 120,
        },
    }
}

fn make_tool(base_url: &str) -> VideoAnalysisTool {
    VideoAnalysisTool::new(config(base_url, "test-vlm", 1.0))
}

fn args(text: &str) -> Value {
    serde_json::from_str(text).unwrap()
}

fn rejection(plan: Result<Plan, Refusal>) -> String {
    match plan {
        Err(Refusal::Rejected(error)) => error,
        Err(Refusal::MissingPath) => panic!("the path is there"),
        Ok(_) => panic!("the call was taken up"),
    }
}

fn planned(tool: &VideoAnalysisTool, requested: Option<SampleRate>) -> Plan {
    match tool.plan(&args(r#"{"path": "video.mp4"}"#), requested) {
        Ok(plan) => plan,
        Err(refusal) => panic!("{}", refusal.message()),
    }
}

fn prepared(tool: &VideoAnalysisTool, requested: Option<SampleRate>) -> PreparedRun {
    let located = planned(tool, requested)
        .located(Resolution::Found("/videos/video.mp4".to_string()))
        .ok()
        .unwrap();
    let admitted = located.admitted(true).ok().unwrap();
    admitted.prepared(Ok(())).ok().unwrap()
}

#[test]
fn tool_name_and_spec() {
    let tool = make_tool("http://localhost:9");
    assert_eq!(tool.name(), "analyze_video");
    assert!(!tool.description().is_empty());
    let schema = tool.parameters_schema();
    assert!(schema["properties"]["path"].is_object());
    assert!(schema["required"]
        .as_array()
        .is_some_and(|r| r.contains(&Value::from("path"))));
}

#[test]
fn schema_is_complete() {
    let schema = make_tool("http://localhost:9").parameters_schema();
    let expected = args(
        r#"{
            "type": "object",
            "properties": {
                "path": {
                    "type": "string",
                    "description": "Path to the video file (absolute or relative to workspace)"
                },
                "sample_fps": {
                    "type": "number",
                    "description": "Optional frame sampling rate override in frames per second (default: video_analysis.sample_fps from config)"
                }
            },
            "required": ["path"]
        }"#,
    );
    assert_eq!(schema, expected);
}

#[test]
fn execute_requires_path() {
    let tool = make_tool("http://localhost:9");
    for text in ["{}", r#"{"path": 3}"#, "[]", "null"] {
        match tool.plan(&args(text), None) {
            Err(refusal) => {
                assert!(matches!(refusal, Refusal::MissingPath));
                assert_eq!(refusal.message(), "Missing 'path' parameter");
            }
            Ok(_) => panic!("a call without a path was taken up"),
        }
    }
}

#[test]
fn missing_path_comes_before_a_bad_rate() {
    let tool = make_tool("http://localhost:9");
    assert!(matches!(
        tool.plan(&args("{}"), Some(rate(0.0))),
        Err(Refusal::MissingPath)
    ));
}

#[test]
fn execute_rejects_unconfigured_vlm() {
    for (base_url, model) in [("", ""), ("http://a", " \n"), ("\u{3000}", "m")] {
        let tool = VideoAnalysisTool::new(config(base_url, model, 1.0));
        let error = rejection(tool.plan(&args(r#"{"path": "video.mp4"}"#), None));
        assert!(error.contains("vlm.base_url"));
        assert_eq!(
            error,
            "video_analysis.vlm.base_url and video_analysis.vlm.model must be set in config \
             (the OpenAI-compatible VLM server to send face crops to)."
        );
    }
}

#[test]
fn execute_rejects_missing_video() {
    let tool = make_tool("http://localhost:9");
    let plan = match tool.plan(&args(r#"{"path": "/tmp/zeroclaw_no_such_video.mp4"}"#), None) {
        Ok(plan) => plan,
        Err(refusal) => panic!("{}", refusal.message()),
    };
    assert_eq!(plan.video_argument(), "/tmp/zeroclaw_no_such_video.mp4");
    let stop = plan.located(Resolution::NotFound).err().unwrap();
    assert!(stop.record_action);
    assert!(stop.error.contains("not found"));
    assert_eq!(stop.error, "Video not found: /tmp/zeroclaw_no_such_video.mp4");
}

#[test]
fn the_rate_stands_under_its_own_key() {
    assert_eq!(rate_argument(&args(r#"{"path": "v", "sample_fps": 2.5}"#)), &Value::from(2.5));
    assert_eq!(rate_argument(&args(r#"{"sample_fps": "fast"}"#)), &Value::from("fast"));
    assert_eq!(rate_argument(&args(r#"{"path": "v", "fps": 3}"#)), &Value::Null);
    assert_eq!(rate_argument(&args(r#"[{"sample_fps": 3}]"#)), &Value::Null);
}

#[test]
fn execute_rejects_nonpositive_sample_fps() {
    let tool = make_tool("http://localhost:9");
    let path = args(r#"{"path": "video.mp4", "sample_fps": 0.0}"#);
    let requested = rate_argument(&path).as_f64().map(rate);
    let error = rejection(tool.plan(&path, requested));
    assert!(error.contains("sample_fps"));
    assert_eq!(error, "sample_fps must be > 0, got 0");
    assert_eq!(
        rejection(tool.plan(&path, Some(rate(-2.5)))),
        "sample_fps must be > 0, got -2.5"
    );
    assert_eq!(
        rejection(tool.plan(&path, Some(rate(f64::NAN)))),
        "sample_fps must be > 0, got NaN"
    );
}

#[test]
fn configured_rate_is_checked_only_where_it_is_used() {
    let path = args(r#"{"path": "video.mp4"}"#);
    let tool = VideoAnalysisTool::new(config("http://a", "m", -1.0));
    assert_eq!(
        rejection(tool.plan(&path, None)),
        "video_analysis.sample_fps must be > 0"
    );
    assert!(tool.plan(&path, Some(rate(2.0))).is_ok());
    let odd = VideoAnalysisTool::new(config("http://a", "m", f64::NAN));
    assert!(odd.plan(&path, None).is_ok());
}

#[test]
fn rates_compare_as_floating_point_numbers_do() {
    let rates = [
        0.0,
        -0.0,
        1.0,
        -1.0,
        0.2,
        f64::MIN_POSITIVE,
        5e-324,
        -5e-324,
        f64::MAX,
        f64::MIN,
        f64::INFINITY,
        f64::NEG_INFINITY,
        f64::NAN,
        -f64::NAN,
    ];
    for fps in rates {
        assert_eq!(rate(fps).positive(), fps > 0.0, "{fps}");
        assert_eq!(rate(fps).at_most_zero(), fps <= 0.0, "{fps}");
    }
}

#[test]
fn stops_on_the_way_to_a_run() {
    let tool = make_tool("http://localhost:9");
    let stop = planned(&tool, None)
        .located(Resolution::Failed("permission denied".to_string()))
        .err()
        .unwrap();
    assert!(stop.record_action);
    assert_eq!(stop.error, "Failed to resolve video path: permission denied");

    let located = planned(&tool, None)
        .located(Resolution::Found("/etc/x".to_string()))
        .ok()
        .unwrap();
    let stop = located.admitted(false).err().unwrap();
    assert!(!stop.record_action);
    assert_eq!(
        stop.error,
        "Resolved video path is outside the allowed readable roots."
    );

    let located = planned(&tool, None)
        .located(Resolution::Found("/v".to_string()))
        .ok()
        .unwrap();
    let admitted = located.admitted(true).ok().unwrap();
    let stop = admitted.prepared(Err("disk full".to_string())).err().unwrap();
    assert!(!stop.record_action);
    assert_eq!(
        stop.error,
        "failed to create temporary work directory: disk full"
    );
}

#[test]
fn helper_command_line() {
    let tool = make_tool("http://localhost:9");
    let run = prepared(&tool, Some(rate(2.5)));
    assert_eq!(run.video_path(), "/videos/video.mp4");
    let words: Vec<String> = run
        .helper_arguments(&tool)
        .iter()
        .map(|argument| match argument {
            HelperArgument::Script => "<script>".to_string(),
            HelperArgument::Video => "<video>".to_string(),
            HelperArgument::ModelsDir => "<models>".to_string(),
            HelperArgument::CropsDir => "<crops>".to_string(),
            HelperArgument::Text(text) => text.clone(),
        })
        .collect();
    assert_eq!(
        words.join(" "),
        "<script> --video <video> --fps 2.5 --detector yunet --models-dir <models> \
         --out-dir <crops> --min-confidence 0.6"
    );
    assert_eq!(prepared(&tool, None).sample_rate(&tool).text, "1");
    assert_eq!(FaceDetectorKind::ResnetSsd.name(), "resnet_ssd");
}

#[test]
fn client_timeout_is_at_least_one_second() {
    let mut tool = make_tool("http://localhost:9");
    assert_eq!(tool.client_timeout_secs(), 120);
    tool.config.vlm.timeout_secs = 0;
    assert_eq!(tool.client_timeout_secs(), 1);
    tool.config.vlm.timeout_secs = u64::MAX;
    assert_eq!(tool.client_timeout_secs(), u64::MAX);
}

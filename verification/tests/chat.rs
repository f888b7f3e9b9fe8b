use serde_json::Value;
use video_analysis::chat::{TEMPERATURE_TENTHS, VLM_JSON_RETRY_REMINDER, VLM_SYSTEM_PROMPT};
use video_analysis::config::{
    FaceDetectorKind, SampleRate, VideoAnalysisConfig, VideoAnalysisVlmConfig,
};
use video_analysis::detection::{DetectedFace, DetectionSample};
use video_analysis::reply::{completion_reply, parsed_object, ChatOutcome};
use video_analysis::report;
use video_analysis::text;
use video_analysis::tool::VideoAnalysisTool;
use video_analysis::vlm::VlmError;

fn json(text: &str) -> Value {
    serde_json::from_str(text).unwrap()
}

fn sample_with_one_face(crop_path: &str) -> DetectionSample {
    DetectionSample {
        timestamp: "00:00:01.000".to_string(),
        faces: vec![DetectedFace {
            face_id: 1,
            crop_path: crop_path.to_string(),
        }],
    }
}

fn tool() -> VideoAnalysisTool {
    VideoAnalysisTool::new(VideoAnalysisConfig {
        sample_fps: SampleRate {
            bits: 1f64.to_bits(),
            text: "1".to_string(),
            json: Value::from(1.0),
        },
        output_dir: "./analysis_output".to_string(),
        face_detector: FaceDetectorKind::Yunet,
        models_dir: "./models".to_string(),
        python_bin: "python3".to_string(),
        vlm: VideoAnalysisVlmConfig {
            base_url: "http://a".to_string(),
            model: "test-vlm".to_string(),
            api_key: None,
            timeout_secs: 120,
        },
    })
}

#[test]
fn chat_url_strips_trailing_slash() {
    assert_eq!(
        VideoAnalysisTool::chat_completions_url("http://10.0.0.2:8000/"),
        "http://10.0.0.2:8000/v1/chat/completions"
    );
    assert_eq!(
        VideoAnalysisTool::chat_completions_url("http://10.0.0.2:8000"),
        "http://10.0.0.2:8000/v1/chat/completions"
    );
}

#[test]
fn chat_url_strips_every_trailing_slash() {
    for base_url in ["http://a", "http://a/", "http://a///"] {
        assert_eq!(
            VideoAnalysisTool::chat_completions_url(base_url),
            "http://a/v1/chat/completions"
        );
    }
    for base_url in ["", "/", "//"] {
        assert_eq!(
            VideoAnalysisTool::chat_completions_url(base_url),
            "/v1/chat/completions"
        );
    }
    assert_eq!(
        VideoAnalysisTool::chat_completions_url("http://a/x/ "),
        "http://a/x/ /v1/chat/completions"
    );
}

#[test]
fn parse_json_reply_accepts_plain_object() {
    let value = VideoAnalysisTool::parse_json_reply(r#"{"timestamp":"t","faces":[]}"#).unwrap();
    assert_eq!(value["timestamp"], "t");
}

#[test]
fn parse_json_reply_strips_fences_and_prose() {
    let reply = "Here you go:\n```json\n{\"faces\": [], \"plausible_events\": []}\n```";
    let value = VideoAnalysisTool::parse_json_reply(reply).unwrap();
    assert!(value["faces"].as_array().is_some());
}

#[test]
fn parse_json_reply_rejects_garbage() {
    assert!(VideoAnalysisTool::parse_json_reply("not json at all").is_none());
    assert!(VideoAnalysisTool::parse_json_reply("[1, 2, 3]").is_none());
}

#[test]
fn parse_json_reply_edge_cases() {
    assert_eq!(
        VideoAnalysisTool::parse_json_reply(" \n\u{a0}{\"a\": 1}\u{2003}\t"),
        Some(json(r#"{"a": 1}"#))
    );
    // An array is no object, but the span between its braces may be one.
    assert_eq!(
        VideoAnalysisTool::parse_json_reply(r#"[{"a": 1}]"#),
        Some(json(r#"{"a": 1}"#))
    );
    assert_eq!(
        VideoAnalysisTool::parse_json_reply("né {\"é\": \"}\"} ü"),
        Some(json("{\"é\": \"}\"}"))
    );
    assert!(VideoAnalysisTool::parse_json_reply("").is_none());
    assert!(VideoAnalysisTool::parse_json_reply("}{").is_none());
    assert!(VideoAnalysisTool::parse_json_reply("{").is_none());
    assert!(VideoAnalysisTool::parse_json_reply("}").is_none());
    assert!(VideoAnalysisTool::parse_json_reply("{} and {}").is_none());
    assert!(VideoAnalysisTool::parse_json_reply("see {1}").is_none());
}

#[test]
fn parsed_object_keeps_objects_only() {
    assert_eq!(parsed_object(Ok(json("{}"))), Some(json("{}")));
    assert_eq!(parsed_object(Ok(json("[]"))), None);
    assert_eq!(parsed_object(Ok(Value::Null)), None);
    assert_eq!(parsed_object(Err("eof".to_string())), None);
}

#[test]
fn user_content_carries_one_image_per_crop() {
    let sample = sample_with_one_face("a.jpg");
    let content = VideoAnalysisTool::build_user_content(
        &sample,
        &[(1, "AAAA".to_string()), (2, "BBBB".to_string())],
    );
    let items = content.as_array().unwrap();
    assert_eq!(items.len(), 3); // text + 2 images
    assert_eq!(items[0]["type"], "text");
    assert!(items[1]["image_url"]["url"]
        .as_str()
        .unwrap()
        .starts_with("data:image/jpeg;base64,"));
}

#[test]
fn user_content_is_exact() {
    let sample = sample_with_one_face("a.jpg");
    let content = VideoAnalysisTool::build_user_content(
        &sample,
        &[(7, "AAAA".to_string()), (4294967295, "BBBB".to_string())],
    );
    assert_eq!(
        content,
        json(
            r#"[
                {"type": "text", "text": "Video timestamp 00:00:01.000: 2 cropped face(s) follow, in face_id order (face_id 7, face_id 4294967295). Analyze them per the schema, using this exact timestamp value."},
                {"type": "image_url", "image_url": {"url": "data:image/jpeg;base64,AAAA"}},
                {"type": "image_url", "image_url": {"url": "data:image/jpeg;base64,BBBB"}}
            ]"#
        )
    );
    let empty = VideoAnalysisTool::build_user_content(&sample, &[]);
    assert_eq!(empty.as_array().unwrap().len(), 1);
    assert!(empty[0]["text"]
        .as_str()
        .unwrap()
        .contains(": 0 cropped face(s) follow, in face_id order ()."));
}

#[test]
fn conversations_open_and_continue() {
    let sample = sample_with_one_face("a.jpg");
    let crops = [(1, "aGk=".to_string())];
    let opening = VideoAnalysisTool::messages(&sample, &crops, None);
    assert_eq!(opening.len(), 2);
    assert_eq!(opening[0]["role"], "system");
    assert_eq!(opening[0]["content"], VLM_SYSTEM_PROMPT);
    assert_eq!(opening[1]["role"], "user");
    assert_eq!(
        opening[1]["content"],
        VideoAnalysisTool::build_user_content(&sample, &crops)
    );
    let again = VideoAnalysisTool::messages(&sample, &crops, Some("Sure!"));
    assert_eq!(again.len(), 4);
    assert_eq!(again[..2], opening[..]);
    assert_eq!(again[2], json(r#"{"role": "assistant", "content": "Sure!"}"#));
    assert_eq!(again[3]["role"], "user");
    assert_eq!(again[3]["content"], VLM_JSON_RETRY_REMINDER);
}

#[test]
fn prompts_read_as_intended() {
    assert!(VLM_SYSTEM_PROMPT.starts_with(
        "You are a visual analysis assistant. You receive cropped face images taken at one timestamp"
    ));
    assert!(VLM_SYSTEM_PROMPT.ends_with(
        "outside the JSON:\n{\n\"timestamp\": \"<video timestamp>\",\n\"faces\": [\n{\"face_id\": 1, \"age_estimate\": \"...\", \"race_estimate\": \"...\", \"emotion\": \"...\", \"confidence_notes\": \"...\"}\n],\n\"plausible_events\": [\"...\", \"...\"]\n}"
    ));
    assert_eq!(
        VLM_JSON_RETRY_REMINDER,
        "Your previous reply was not valid JSON. Respond ONLY with valid JSON matching the schema you were given — no markdown fences, no explanations, nothing outside the JSON object."
    );
}

#[test]
fn request_body_is_exact() {
    let temperature = Value::from(TEMPERATURE_TENTHS as f64 / 10.0);
    let body = tool().request_body(vec![json(r#"{"role": "user", "content": "hi"}"#)], temperature);
    assert_eq!(
        body,
        json(
            r#"{"model": "test-vlm", "messages": [{"role": "user", "content": "hi"}], "temperature": 0.2, "max_tokens": 1024}"#
        )
    );
}

#[test]
fn post_chat_classifies_unreachable_server() {
    let refused = ChatOutcome::SendFailed {
        connect: true,
        timeout: false,
        error: "refused".to_string(),
    };
    let err = VideoAnalysisTool::chat_reply(refused).unwrap_err();
    assert!(matches!(err, VlmError::Unreachable(_)));
    assert_eq!(err.message(), "VLM server unreachable: refused");

    let late = ChatOutcome::SendFailed {
        connect: false,
        timeout: true,
        error: "late".to_string(),
    };
    let err = VideoAnalysisTool::chat_reply(late).unwrap_err();
    assert!(matches!(err, VlmError::Unreachable(_)));

    let other = ChatOutcome::SendFailed {
        connect: false,
        timeout: false,
        error: "bad redirect".to_string(),
    };
    let err = VideoAnalysisTool::chat_reply(other).unwrap_err();
    assert!(matches!(err, VlmError::Request(_)));
    assert_eq!(err.message(), "VLM request failed: bad redirect");
}

fn response(success: bool, status: &str, body: &str) -> Result<String, VlmError> {
    VideoAnalysisTool::chat_reply(ChatOutcome::Response {
        success,
        status: status.to_string(),
        body: body.to_string(),
    })
}

#[test]
fn chat_responses_are_read() {
    let reply = response(
        true,
        "200 OK",
        r#"{"choices": [{"message": {"role": "assistant", "content": "{\"a\": 1}"}}]}"#,
    );
    assert_eq!(reply.ok(), Some(r#"{"a": 1}"#.to_string()));

    for body in [
        "{}",
        "[]",
        "3",
        r#"{"choices": []}"#,
        r#"{"choices": {"0": {"message": {"content": "x"}}}}"#,
        r#"{"choices": [{"message": {"content": null}}]}"#,
        r#"{"choices": [{"message": {"content": 1}}]}"#,
    ] {
        assert_eq!(
            response(true, "200 OK", body).unwrap_err().message(),
            "VLM request failed: completion response missing choices[0].message.content"
        );
    }

    let message = response(true, "200 OK", "<html>").unwrap_err().message();
    assert_eq!(
        message,
        "VLM request failed: non-JSON completion response: expected value at line 1 column 1"
    );

    let err = VideoAnalysisTool::chat_reply(ChatOutcome::BodyUnread {
        timeout: false,
        error: "reset".to_string(),
    });
    assert_eq!(
        err.unwrap_err().message(),
        "VLM request failed: failed to read response body: reset"
    );
}

#[test]
fn a_timeout_in_the_body_leaves_the_server_unreachable() {
    let err = VideoAnalysisTool::chat_reply(ChatOutcome::BodyUnread {
        timeout: true,
        error: "operation timed out".to_string(),
    });
    match err.unwrap_err() {
        VlmError::Unreachable(error) => {
            assert_eq!(error, "failed to read response body: operation timed out");
        }
        other => panic!("{}", other.message()),
    }
}

#[test]
fn braceless_prose_around_a_reply_changes_nothing() {
    let contents = [
        r#"{"a": 1}"#,
        r#" {"a": {"b": "}{"}} "#,
        "[{\"a\": 1}]",
        "{not json}",
        "} {",
        "{",
        "",
        "3",
    ];
    for content in contents {
        let plain = VideoAnalysisTool::parse_json_reply(content);
        for (before, after) in [("", ""), ("```json\n", "\n```"), ("Sure: [", "] \u{3000}.")] {
            let whole = format!("{}{}{}", before, content, after);
            assert_eq!(VideoAnalysisTool::parse_json_reply(&whole), plain);
        }
    }
    assert_eq!(
        VideoAnalysisTool::parse_json_reply("[{\"a\": 1}]"),
        Some(json(r#"{"a": 1}"#))
    );
}

#[test]
fn written_objects_are_read_back_from_a_reply() {
    let objects = [
        "{}",
        r#"{"a": "}{ ``` \\ \" \u0001 \u2028", "b": [1, -2, 18446744073709551615, null, true]}"#,
        r#"{"}": {"{": {"x": -9223372036854775808}}, "empty": [], "e": "1e5"}"#,
    ];
    for object in objects {
        let value = json(object);
        let text = report::compact_text(&value);
        for (before, after) in [
            ("", ""),
            ("```json\n", "\n```"),
            ("} an answer } ", " { and { more"),
        ] {
            let reply = format!("{}{}{}", before, text, after);
            assert_eq!(VideoAnalysisTool::parse_json_reply(&reply), Some(value.clone()));
        }
    }
    assert_eq!(
        report::compact_text(&json(r#"{ "b": [1, "x"], "a": {} }"#)),
        r#"{"a":{},"b":[1,"x"]}"#
    );
}

#[test]
fn objects_are_read_back_down_to_the_depth_that_json_is_read() {
    let nested = |depth: usize| {
        let mut value = Value::from(7u64);
        for _ in 0..depth {
            let mut map = serde_json::Map::new();
            map.insert("k".to_string(), value);
            value = Value::Object(map);
        }
        value
    };
    let read = |value: &Value| VideoAnalysisTool::parse_json_reply(&report::compact_text(value));
    assert_eq!(read(&nested(100)), Some(nested(100)));
    assert_eq!(read(&nested(127)), Some(nested(127)));
    assert_eq!(read(&nested(128)), None);
}

#[test]
fn failed_statuses_repeat_the_start_of_the_body() {
    assert_eq!(
        response(false, "500 Internal Server Error", "oops").unwrap_err().message(),
        "VLM request failed: VLM server returned 500 Internal Server Error: oops"
    );
    let body = "ü".repeat(301);
    assert_eq!(
        response(false, "404 Not Found", &body).unwrap_err().message(),
        format!("VLM request failed: VLM server returned 404 Not Found: {}", "ü".repeat(300))
    );
    // A body is not read as JSON where the status is one of failure.
    let body = r#"{"choices": [{"message": {"content": "x"}}]}"#;
    assert!(response(false, "400 Bad Request", body).is_err());
}

#[test]
fn completion_reply_reads_the_first_choice() {
    let value = json(r#"{"choices": [{"message": {"content": "a"}}, {"message": {"content": "b"}}]}"#);
    assert_eq!(completion_reply(Ok(value)).ok(), Some("a".to_string()));
    assert_eq!(
        completion_reply(Err("eof".to_string())).unwrap_err().message(),
        "VLM request failed: non-JSON completion response: eof"
    );
}

#[test]
fn trimming_agrees_with_unicode_white_space() {
    for code in (0u32..0x3100).chain(0xfe00..0x10100) {
        if let Some(c) = char::from_u32(code) {
            let around = format!("{c}a{c}b{c}");
            assert_eq!(text::trim(&around), around.trim(), "{code:x}");
        }
    }
    assert_eq!(text::trim(""), "");
    assert_eq!(text::trim(" \t\n"), "");
}

#[test]
fn outermost_braces_span_the_text_between_them() {
    assert_eq!(text::outermost_braces("a{b}c{d}e"), Some("{b}c{d}"));
    assert_eq!(text::outermost_braces("{}"), Some("{}"));
    assert_eq!(text::outermost_braces("}{"), None);
    assert_eq!(text::outermost_braces("a{"), None);
    assert_eq!(text::outermost_braces(""), None);
}

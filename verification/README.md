# video_analysis

The decisions of `analyze_video`, a privacy-preserving video analysis tool, as a
verified library, with the outside work around it.

A run samples frames of a local video, detects faces locally, sends only the face
crops to an OpenAI-compatible vision-language model, and writes one JSON report.
Full frames never leave the machine.

- `src/` is the library. It is written in Verus: every function states what it
  returns, and Verus proves it. `src/runs.rs` states what holds of whole runs:
  that they end, that a request carries the crops of its own sample and no other
  picture, that the model is asked at most twice about one sample, that a sample
  with a readable crop has an entry for the answer, that every entry carries its
  timestamp, and that an unreachable server ends the run.
- `app/` does the outside work: files, the helper's process, requests.
- `tests/` runs the library.

What the library takes on trust is marked `external_body`,
`assume_specification` or `external_type_specification`: `serde_json` and the
names for what its values hold (`src/json.rs`), the `base64` engine
(`src/encoding.rs`), and the lossy reading of UTF-8 in the standard library
(`src/detection.rs`).

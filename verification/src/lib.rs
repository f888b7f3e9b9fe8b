//! Privacy-preserving video analysis: the decisions of a tool that samples the
//! frames of a video, detects faces locally, sends only the face crops to a
//! vision-language model, and aggregates its answers into one JSON report.
//!
//! The library performs none of the outside work itself. Its caller reads files,
//! runs the detection helper and sends requests, and hands the outcomes back:
//!
//! - `tool` checks a call and leads it, step by step, to a video that may be read;
//! - `detection` words the call of the detection helper and its failures;
//! - `analysis` is the state machine over the samples, and `runs` states what
//!   holds of whole runs of it;
//! - `chat` builds what is sent to the model, and `reply` reads what it answers;
//! - `report` aggregates the entries into the report and its summary.

pub mod analysis;
pub mod chat;
pub mod config;
pub mod detection;
pub mod encoding;
pub mod json;
pub mod reply;
pub mod report;
pub mod runs;
pub mod text;
pub mod tool;
pub mod vlm;

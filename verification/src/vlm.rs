//! How the vision-language model stage can fail.

use vstd::prelude::*;

verus! {

/// A failure of the vision-language model stage: an unreachable server ends the
/// run, any other failure is recorded for its timestamp and the run goes on.
#[derive(Debug)]
pub enum VlmError {
    /// Transport-level failure (connect or timeout): the server is unreachable.
    Unreachable(String),
    /// HTTP or protocol failure of one request.
    Request(String),
    /// The model never produced parseable JSON, even after the retry.
    MalformedJson(String),
}

/// A `VlmError` with its text as a sequence.
pub enum VlmErrorView {
    Unreachable(Seq<char>),
    Request(Seq<char>),
    MalformedJson(Seq<char>),
}

impl View for VlmError {
    type V = VlmErrorView;

    open spec fn view(&self) -> VlmErrorView {
        match self {
            VlmError::Unreachable(error) => VlmErrorView::Unreachable(error@),
            VlmError::Request(error) => VlmErrorView::Request(error@),
            VlmError::MalformedJson(reply) => VlmErrorView::MalformedJson(reply@),
        }
    }
}

impl VlmErrorView {
    /// The failure in words.
    pub open spec fn message(self) -> Seq<char> {
        match self {
            VlmErrorView::Unreachable(error) => "VLM server unreachable: "@ + error,
            VlmErrorView::Request(error) => "VLM request failed: "@ + error,
            VlmErrorView::MalformedJson(reply) => "VLM returned malformed JSON after retry: "@
                + reply,
        }
    }
}

impl VlmError {
    /// The failure in words.
    pub fn message(&self) -> (message: String)
        ensures
            message@ == self@.message(),
    {
        match self {
            VlmError::Unreachable(error) => {
                "VLM server unreachable: ".to_owned().concat(error.as_str())
            },
            VlmError::Request(error) => "VLM request failed: ".to_owned().concat(error.as_str()),
            VlmError::MalformedJson(reply) => {
                "VLM returned malformed JSON after retry: ".to_owned().concat(reply.as_str())
            },
        }
    }
}

/// Law: a failure is seen as what it is, with its whole text.
pub proof fn failures_are_seen_whole(error: String)
    ensures
        VlmError::Unreachable(error)@ == VlmErrorView::Unreachable(error@),
        VlmError::Request(error)@ == VlmErrorView::Request(error@),
        VlmError::MalformedJson(error)@ == VlmErrorView::MalformedJson(error@),
{
}

/// Law: a failure in words says what kind it is and repeats its whole text.
pub proof fn failures_in_words(error: Seq<char>)
    ensures
        VlmErrorView::Unreachable(error).message() == "VLM server unreachable: "@ + error,
        VlmErrorView::Request(error).message() == "VLM request failed: "@ + error,
        VlmErrorView::MalformedJson(error).message() == "VLM returned malformed JSON after retry: "@
            + error,
{
}

} // verus!

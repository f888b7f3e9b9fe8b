//! How the outcome of a chat request is read: the reply of the model, and the
//! JSON object in it.

use vstd::prelude::*;

use serde_json::Value;

use crate::json;
use crate::json::JsonView;
use crate::text;
use crate::tool::VideoAnalysisTool;
use crate::vlm::{VlmError, VlmErrorView};

verus! {

/// How a chat request went.
pub enum ChatOutcome {
    /// The request could not be sent, or no response came. `connect` and
    /// `timeout` tell whether the connection or the time was the matter.
    SendFailed { connect: bool, timeout: bool, error: String },
    /// A response came, but its body could not be read. `timeout` tells whether
    /// the time was the matter.
    BodyUnread { timeout: bool, error: String },
    /// A response came. `success` tells whether its status is one of success.
    Response { success: bool, status: String, body: String },
}

/// What `serde_json` made of a text.
pub open spec fn parsed_view(parsed: Result<Value, String>) -> Result<JsonView, Seq<char>> {
    match parsed {
        Ok(value) => Ok(json::value_tree(value)),
        Err(error) => Err(error@),
    }
}

/// The reply of the model, or why there is none.
pub open spec fn reply_view(reply: Result<String, VlmError>) -> Result<Seq<char>, VlmErrorView> {
    match reply {
        Ok(text) => Ok(text@),
        Err(error) => Err(error@),
    }
}

/// The value, if there is one.
pub open spec fn value_view(value: Option<Value>) -> Option<JsonView> {
    match value {
        Some(value) => Some(json::value_tree(value)),
        None => None,
    }
}

/// The reply of the model within the JSON of a completion response.
pub open spec fn reply_in(parsed: Result<JsonView, Seq<char>>) -> Result<Seq<char>, VlmErrorView> {
    match parsed {
        Err(error) => Err(VlmErrorView::Request("non-JSON completion response: "@ + error)),
        Ok(tree) => match tree.entry("choices"@).item(0).entry("message"@).entry(
            "content"@,
        ).text() {
            Some(reply) => Ok(reply),
            None => Err(
                VlmErrorView::Request("completion response missing choices[0].message.content"@),
            ),
        },
    }
}

impl ChatOutcome {
    /// The reply of the model, or why there is none.
    pub open spec fn reply(self) -> Result<Seq<char>, VlmErrorView> {
        match self {
            ChatOutcome::SendFailed { connect, timeout, error } => if connect || timeout {
                Err(VlmErrorView::Unreachable(error@))
            } else {
                Err(VlmErrorView::Request(error@))
            },
            ChatOutcome::BodyUnread { timeout, error } => if timeout {
                Err(VlmErrorView::Unreachable("failed to read response body: "@ + error@))
            } else {
                Err(VlmErrorView::Request("failed to read response body: "@ + error@))
            },
            ChatOutcome::Response { success, status, body } => if success {
                reply_in(json::parsed_json(body@))
            } else {
                Err(
                    VlmErrorView::Request(
                        "VLM server returned "@ + status@ + ": "@ + text::excerpt(body@),
                    ),
                )
            },
        }
    }
}

/// The object that a text holds, where it is the JSON of one.
pub open spec fn object_in(parsed: Result<JsonView, Seq<char>>) -> Option<JsonView> {
    match parsed {
        Ok(tree) => if tree is Object {
            Some(tree)
        } else {
            None
        },
        Err(_) => None,
    }
}

/// The JSON object in a reply: what the span between its outermost braces is the
/// JSON of.
pub open spec fn reply_object(content: Seq<char>) -> Option<JsonView> {
    match text::brace_span(content) {
        Some(span) => object_in(json::parsed_json(span)),
        None => None,
    }
}

/// A text that starts and ends with a brace is the span between its outermost
/// braces.
proof fn lemma_braced_is_its_own_span(s: Seq<char>)
    requires
        text::braced(s),
    ensures
        text::brace_span(s) == Some(s),
{
    let none = Seq::<char>::empty();
    text::brace_span_skips_surrounding_prose(none, s, none);
    assert(none + s + none == s);
}

/// The reply of the model within the JSON of a completion response.
pub fn completion_reply(parsed: Result<Value, String>) -> (reply: Result<String, VlmError>)
    ensures
        reply_view(reply) == reply_in(parsed_view(parsed)),
        parsed matches Ok(value) ==> (json::value_tree(value).entry("choices"@).item(0).entry(
            "message"@,
        ).entry("content"@) matches JsonView::Str(content) ==> (reply matches Ok(given) && given@
            == content)),
{
    match parsed {
        Err(error) => Err(
            VlmError::Request("non-JSON completion response: ".to_owned().concat(error.as_str())),
        ),
        Ok(value) => {
            let message = json::entry(json::item(json::entry(&value, "choices"), 0), "message");
            match json::entry(message, "content").as_str() {
                Some(reply) => Ok(reply.to_owned()),
                None => Err(
                    VlmError::Request(
                        "completion response missing choices[0].message.content".to_owned(),
                    ),
                ),
            }
        },
    }
}

/// The object that a text holds, where it is the JSON of one.
pub fn parsed_object(parsed: Result<Value, String>) -> (object: Option<Value>)
    ensures
        value_view(object) == object_in(parsed_view(parsed)),
{
    match parsed {
        Ok(value) => if value.is_object() {
            Some(value)
        } else {
            None
        },
        Err(_) => None,
    }
}

impl VideoAnalysisTool {
    /// The reply of the model, or why there is none.
    pub fn chat_reply(outcome: ChatOutcome) -> (reply: Result<String, VlmError>)
        ensures
            reply_view(reply) == outcome.reply(),
    {
        match outcome {
            ChatOutcome::SendFailed { connect, timeout, error } => if connect || timeout {
                Err(VlmError::Unreachable(error))
            } else {
                Err(VlmError::Request(error))
            },
            ChatOutcome::BodyUnread { timeout, error } => {
                let message = "failed to read response body: ".to_owned().concat(error.as_str());
                if timeout {
                    Err(VlmError::Unreachable(message))
                } else {
                    Err(VlmError::Request(message))
                }
            },
            ChatOutcome::Response { success, status, body } => if success {
                completion_reply(json::parse_json(body.as_str()))
            } else {
                let mut message = "VLM server returned ".to_owned();
                message.append(status.as_str());
                message.append(": ");
                message.append(text::shortened(body.as_str()));
                Err(VlmError::Request(message))
            },
        }
    }

    /// The JSON object in a reply: fences and prose around it are tolerated. A
    /// reply that is itself the JSON of an object, white space around it aside,
    /// is read as that object.
    pub fn parse_json_reply(content: &str) -> (object: Option<Value>)
        ensures
            value_view(object) == reply_object(content@),
            object matches Some(value) ==> json::value_tree(value) is Object,
            match object_in(json::parsed_json(text::trimmed(content@))) {
                Some(tree) => value_view(object) == Some(tree),
                None => true,
            },
    {
        let reply = text::trim(content);
        proof {
            text::trimming_twice_changes_nothing(content@);
            text::brace_span_ignores_surrounding_space(content@);
        }
        let whole = parsed_object(json::parse_json(reply));
        if whole.is_some() {
            proof {
                lemma_braced_is_its_own_span(reply@);
            }
            return whole;
        }
        match text::outermost_braces(reply) {
            Some(span) => parsed_object(json::parse_json(span)),
            None => None,
        }
    }
}

/// Law: a reply that starts and ends with a brace, white space around it aside,
/// is read as a whole.
pub proof fn plain_object_is_read(content: Seq<char>)
    requires
        text::braced(text::trimmed(content)),
    ensures
        reply_object(content) == object_in(json::parsed_json(text::trimmed(content))),
{
    lemma_braced_is_its_own_span(text::trimmed(content));
    text::brace_span_ignores_surrounding_space(content);
}

/// Law: what is read from a reply is always an object.
pub proof fn only_objects_are_read(content: Seq<char>)
    ensures
        reply_object(content) matches Some(tree) ==> tree is Object,
{
}

/// Law: markdown fences and prose around a braced text are passed over, as long
/// as no `{` stands in front of it and no `}` behind it.
pub proof fn fences_and_prose_are_passed_over(
    before: Seq<char>,
    body: Seq<char>,
    after: Seq<char>,
)
    requires
        text::braced(body),
        !before.contains('{'),
        !after.contains('}'),
    ensures
        reply_object(before + body + after) == object_in(json::parsed_json(body)),
{
    text::brace_span_skips_surrounding_prose(before, body, after);
}

/// Law: prose without braces, in front of any content or behind it, does not
/// change what is read.
pub proof fn braceless_prose_changes_nothing(
    before: Seq<char>,
    content: Seq<char>,
    after: Seq<char>,
)
    requires
        !before.contains('{') && !before.contains('}'),
        !after.contains('{') && !after.contains('}'),
    ensures
        reply_object(before + content + after) == reply_object(content),
{
    text::brace_span_ignores_braceless_prose(before, content, after);
}

/// Law: a reply without an opening brace, or without a closing one, holds no
/// object.
pub proof fn braceless_reply_holds_no_object(content: Seq<char>)
    requires
        !content.contains('{') || !content.contains('}'),
    ensures
        reply_object(content) is None,
{
    content.index_of_first_ensures('{');
    content.index_of_last_ensures('}');
}

/// Law: what came of parsing is seen whole.
pub proof fn outcomes_are_seen_whole(value: Value, error: String, failure: VlmError)
    ensures
        parsed_view(Ok(value)) == Ok::<JsonView, Seq<char>>(json::value_tree(value)),
        parsed_view(Err(error)) == Err::<JsonView, Seq<char>>(error@),
        reply_view(Ok(error)) == Ok::<Seq<char>, VlmErrorView>(error@),
        reply_view(Err(failure)) == Err::<Seq<char>, VlmErrorView>(failure@),
        value_view(Some(value)) == Some(json::value_tree(value)),
        value_view(None) is None,
{
}

/// Law: the reply of the model is the string under the content of the first
/// choice's message, whole, whatever its length.
pub proof fn replies_are_given_whole(tree: JsonView, content: Seq<char>)
    requires
        tree.entry("choices"@).item(0).entry("message"@).entry("content"@) == JsonView::Str(
            content,
        ),
    ensures
        reply_in(Ok(tree)) == Ok::<Seq<char>, VlmErrorView>(content),
{
}

/// Law: a response without such a string, and one that is no JSON, are failed
/// requests that say so.
pub proof fn responses_without_a_reply_fail(tree: JsonView, error: Seq<char>)
    ensures
        !(tree.entry("choices"@).item(0).entry("message"@).entry("content"@) is Str) ==> reply_in(
            Ok(tree),
        ) == Err::<Seq<char>, VlmErrorView>(
            VlmErrorView::Request("completion response missing choices[0].message.content"@),
        ),
        reply_in(Err(error)) == Err::<Seq<char>, VlmErrorView>(
            VlmErrorView::Request("non-JSON completion response: "@ + error),
        ),
{
}

/// Law: a request that no response came to leaves the server unreachable exactly
/// where the connection or the time was the matter, and so does a body that took
/// too long. Any other failure is one of the request. Each repeats its error.
pub proof fn transport_failures_are_told_apart(connect: bool, timeout: bool, error: String)
    ensures
        (ChatOutcome::SendFailed { connect, timeout, error }).reply() == (if connect || timeout {
            Err::<Seq<char>, VlmErrorView>(VlmErrorView::Unreachable(error@))
        } else {
            Err::<Seq<char>, VlmErrorView>(VlmErrorView::Request(error@))
        }),
        (ChatOutcome::BodyUnread { timeout, error }).reply() == (if timeout {
            Err::<Seq<char>, VlmErrorView>(
                VlmErrorView::Unreachable("failed to read response body: "@ + error@),
            )
        } else {
            Err::<Seq<char>, VlmErrorView>(
                VlmErrorView::Request("failed to read response body: "@ + error@),
            )
        }),
{
}

/// Law: a response of success whose body is JSON with a reply in it gives that
/// reply, whole. One of any other status is a failed request, whatever its body
/// says: the status is named, and the start of the body repeated.
pub proof fn statuses_decide(status: String, body: String, tree: JsonView, content: Seq<char>)
    ensures
        json::parsed_json(body@) == Ok::<JsonView, Seq<char>>(tree) && tree.entry(
            "choices"@,
        ).item(0).entry("message"@).entry("content"@) == JsonView::Str(content) ==> (
        ChatOutcome::Response { success: true, status, body }).reply() == Ok::<
            Seq<char>,
            VlmErrorView,
        >(content),
        (ChatOutcome::Response { success: true, status, body }).reply() == reply_in(
            json::parsed_json(body@),
        ),
        (ChatOutcome::Response { success: false, status, body }).reply() == Err::<
            Seq<char>,
            VlmErrorView,
        >(
            VlmErrorView::Request(
                "VLM server returned "@ + status@ + ": "@ + (if body@.len() <= 300 {
                    body@
                } else {
                    body@.take(300)
                }),
            ),
        ),
{
}

/// Law: a parsed text holds an object exactly if it is one, and then all of it.
pub proof fn objects_are_taken_whole(tree: JsonView, error: Seq<char>)
    ensures
        tree is Object ==> object_in(Ok(tree)) == Some(tree),
        !(tree is Object) ==> object_in(Ok(tree)) is None,
        object_in(Err(error)) is None,
{
}

/// Law: a reply in which no `{` stands in front of a `}` holds no object.
pub proof fn replies_without_a_span_hold_no_object(content: Seq<char>)
    requires
        forall|i: int, j: int|
            0 <= i < j < content.len() ==> !(#[trigger] content[i] == '{' && #[trigger] content[j]
                == '}'),
    ensures
        reply_object(content) is None,
{
    let span = text::brace_span_is_outermost(content);
}

/// Law: a reply is read from its first `{` to its last `}`, and only from there.
pub proof fn replies_are_read_between_their_outermost_braces(
    content: Seq<char>,
    start: int,
    end: int,
)
    requires
        0 <= start < end < content.len(),
        content[start] == '{',
        content[end] == '}',
        forall|i: int| 0 <= i < start ==> content[i] != '{',
        forall|i: int| end < i < content.len() ==> content[i] != '}',
    ensures
        match json::parsed_json(content.subrange(start, end + 1)) {
            Ok(tree) => reply_object(content) == (if tree is Object {
                Some(tree)
            } else {
                None
            }),
            Err(_) => reply_object(content) is None,
        },
{
    let before = content.take(start);
    let body = content.subrange(start, end + 1);
    let after = content.skip(end + 1);
    assert(before + body + after == content);
    fences_and_prose_are_passed_over(before, body, after);
}

} // verus!

//! What is sent to the vision-language model.

use vstd::prelude::*;

use serde_json::Value;

use crate::detection::DetectionSample;
use crate::json;
use crate::json::JsonView;
use crate::text;
use crate::tool::VideoAnalysisTool;

verus! {

/// Pins the model to the per-timestamp JSON schema.
pub const VLM_SYSTEM_PROMPT: &'static str = "You are a visual analysis assistant. You receive cropped face images taken at one \
timestamp from a living-room camera. For each face, estimate the person's age range, \
race/ethnicity, and emotion, and note how confident the crops allow you to be. Then list \
plausible events happening in the living room given those faces. These are best-effort \
visual estimates, not identifications. Respond ONLY with valid JSON matching exactly this \
schema, with no markdown fences and no prose outside the JSON:\n\
{\n\
  \"timestamp\": \"<video timestamp>\",\n\
  \"faces\": [\n\
    {\"face_id\": 1, \"age_estimate\": \"...\", \"race_estimate\": \"...\", \
\"emotion\": \"...\", \"confidence_notes\": \"...\"}\n\
  ],\n\
  \"plausible_events\": [\"...\", \"...\"]\n\
}";

/// Asks again for JSON where the first reply was none.
pub const VLM_JSON_RETRY_REMINDER: &'static str = "Your previous reply was not valid JSON. Respond ONLY with valid JSON matching the \
schema you were given — no markdown fences, no explanations, nothing outside the JSON \
object.";

/// The sampling temperature of a request, in tenths.
pub const TEMPERATURE_TENTHS: u64 = 2;

/// How many tokens a reply may have.
pub const MAX_TOKENS: u64 = 1024;

/// The address that chat requests for the server at `base_url` go to.
pub open spec fn chat_url(base_url: Seq<char>) -> Seq<char> {
    text::without_trailing_slashes(base_url) + "/v1/chat/completions"@
}

/// The crops of a timestamp: a face and the base64 text of its picture.
pub open spec fn crop_views(crops: Seq<(u32, String)>) -> Seq<(u32, Seq<char>)> {
    crops.map_values(|crop: (u32, String)| (crop.0, crop.1@))
}

/// The faces of `crops` in words, in order.
pub open spec fn face_list(crops: Seq<(u32, Seq<char>)>) -> Seq<char>
    decreases crops.len(),
{
    if crops.len() == 0 {
        Seq::<char>::empty()
    } else {
        let last = "face_id "@ + text::decimal(crops.last().0 as nat);
        if crops.len() == 1 {
            last
        } else {
            face_list(crops.drop_last()) + ", "@ + last
        }
    }
}

/// The words that introduce the crops of one timestamp.
pub open spec fn crops_prompt(timestamp: Seq<char>, crops: Seq<(u32, Seq<char>)>) -> Seq<char> {
    "Video timestamp "@ + timestamp + ": "@ + text::decimal(crops.len())
        + " cropped face(s) follow, in face_id order ("@ + face_list(crops)
        + "). Analyze them per the schema, using this exact timestamp value."@
}

/// A piece of text in a message.
pub open spec fn text_part(words: Seq<char>) -> JsonView {
    JsonView::Object(map!["type"@ => JsonView::Str("text"@), "text"@ => JsonView::Str(words)])
}

/// A picture in a message, as a data URL.
pub open spec fn image_part(base64: Seq<char>) -> JsonView {
    JsonView::Object(
        map![
            "type"@ => JsonView::Str("image_url"@),
            "image_url"@ => JsonView::Object(
                map!["url"@ => JsonView::Str("data:image/jpeg;base64,"@ + base64)],
            ),
        ],
    )
}

/// The user message for one timestamp: the words, then every crop.
pub open spec fn user_content(timestamp: Seq<char>, crops: Seq<(u32, Seq<char>)>) -> JsonView {
    JsonView::Array(
        seq![text_part(crops_prompt(timestamp, crops))] + crops.map_values(
            |crop: (u32, Seq<char>)| image_part(crop.1),
        ),
    )
}

/// One message of a conversation.
pub open spec fn message(role: Seq<char>, content: JsonView) -> JsonView {
    JsonView::Object(map!["role"@ => JsonView::Str(role), "content"@ => content])
}

/// The conversation about one timestamp. Behind a first reply that was no JSON
/// come that reply and the reminder.
pub open spec fn conversation(
    timestamp: Seq<char>,
    crops: Seq<(u32, Seq<char>)>,
    first_reply: Option<Seq<char>>,
) -> Seq<JsonView> {
    let opening = seq![
        message("system"@, JsonView::Str(VLM_SYSTEM_PROMPT@)),
        message("user"@, user_content(timestamp, crops)),
    ];
    match first_reply {
        None => opening,
        Some(reply) => opening + seq![
            message("assistant"@, JsonView::Str(reply)),
            message("user"@, JsonView::Str(VLM_JSON_RETRY_REMINDER@)),
        ],
    }
}

/// The body of a chat request.
pub open spec fn chat_request(
    model: Seq<char>,
    messages: Seq<JsonView>,
    temperature: JsonView,
) -> JsonView {
    JsonView::Object(
        map![
            "model"@ => JsonView::Str(model),
            "messages"@ => JsonView::Array(messages),
            "temperature"@ => temperature,
            "max_tokens"@ => json::count(MAX_TOKENS as nat),
        ],
    )
}

fn message_value(role: &str, content: Value) -> (value: Value)
    ensures
        json::value_tree(value) == message(role@, json::value_tree(content)),
{
    let mut map = serde_json::Map::new();
    json::put_text(&mut map, "role", role);
    json::put(&mut map, "content", content);
    json::object_value(map)
}

fn text_part_value(words: &str) -> (value: Value)
    ensures
        json::value_tree(value) == text_part(words@),
{
    let mut map = serde_json::Map::new();
    json::put_text(&mut map, "type", "text");
    json::put_text(&mut map, "text", words);
    json::object_value(map)
}

fn image_part_value(base64: &str) -> (value: Value)
    ensures
        json::value_tree(value) == image_part(base64@),
{
    let url = "data:image/jpeg;base64,".to_owned().concat(base64);
    let mut image = serde_json::Map::new();
    json::put_text(&mut image, "url", url.as_str());
    let mut map = serde_json::Map::new();
    json::put_text(&mut map, "type", "image_url");
    json::put(&mut map, "image_url", json::object_value(image));
    json::object_value(map)
}

fn face_list_text(crops: &[(u32, String)]) -> (list: String)
    ensures
        list@ == face_list(crop_views(crops@)),
{
    let mut list = String::new();
    let mut i: usize = 0;
    while i < crops.len()
        invariant
            i <= crops.len(),
            list@ == face_list(crop_views(crops@).take(i as int)),
        decreases crops.len() - i,
    {
        let ghost before = crop_views(crops@).take(i as int);
        let ghost after = crop_views(crops@).take(i + 1);
        assert(after.drop_last() == before);
        let mut face = "face_id ".to_owned();
        face.append(text::decimal_text(crops[i].0 as u64).as_str());
        if i > 0 {
            list.append(", ");
            list.append(face.as_str());
        } else {
            list = face;
        }
        i = i + 1;
    }
    assert(crop_views(crops@).take(i as int) == crop_views(crops@));
    list
}

impl VideoAnalysisTool {
    /// The address that chat requests for the server at `base_url` go to.
    pub fn chat_completions_url(base_url: &str) -> (url: String)
        ensures
            url@ == chat_url(base_url@),
    {
        text::trim_slashes(base_url).to_owned().concat("/v1/chat/completions")
    }

    /// The user message for one timestamp: words, then every face crop as a
    /// base64 data URL.
    pub fn build_user_content(sample: &DetectionSample, crops_b64: &[(u32, String)]) -> (content:
        Value)
        ensures
            json::value_tree(content) == user_content(sample.timestamp@, crop_views(crops_b64@)),
    {
        let mut prompt = "Video timestamp ".to_owned();
        prompt.append(sample.timestamp.as_str());
        prompt.append(": ");
        prompt.append(text::decimal_text(crops_b64.len() as u64).as_str());
        prompt.append(" cropped face(s) follow, in face_id order (");
        prompt.append(face_list_text(crops_b64).as_str());
        prompt.append("). Analyze them per the schema, using this exact timestamp value.");
        let mut content: Vec<Value> = Vec::new();
        content.push(text_part_value(prompt.as_str()));
        let ghost views = crop_views(crops_b64@);
        let mut i: usize = 0;
        while i < crops_b64.len()
            invariant
                i <= crops_b64.len(),
                views == crop_views(crops_b64@),
                json::value_trees(content@) == seq![
                    text_part(crops_prompt(sample.timestamp@, views)),
                ] + views.take(i as int).map_values(|crop: (u32, Seq<char>)| image_part(crop.1)),
            decreases crops_b64.len() - i,
        {
            let ghost before = json::value_trees(content@);
            content.push(image_part_value(crops_b64[i].1.as_str()));
            assert(json::value_trees(content@) == before.push(image_part(views[i as int].1)));
            assert(views.take(i + 1) == views.take(i as int).push(views[i as int]));
            i = i + 1;
        }
        assert(views.take(i as int) == views);
        json::array_value(content)
    }

    /// The conversation about one timestamp, opened, or continued behind a first
    /// reply that was no JSON.
    pub fn messages(
        sample: &DetectionSample,
        crops_b64: &[(u32, String)],
        first_reply: Option<&str>,
    ) -> (messages: Vec<Value>)
        ensures
            json::value_trees(messages@) == conversation(
                sample.timestamp@,
                crop_views(crops_b64@),
                match first_reply {
                    Some(reply) => Some(reply@),
                    None => None,
                },
            ),
    {
        let mut messages: Vec<Value> = Vec::new();
        messages.push(message_value("system", json::string_value(VLM_SYSTEM_PROMPT.to_owned())));
        messages.push(message_value("user", Self::build_user_content(sample, crops_b64)));
        if let Some(reply) = first_reply {
            messages.push(message_value("assistant", json::string_value(reply.to_owned())));
            messages.push(
                message_value("user", json::string_value(VLM_JSON_RETRY_REMINDER.to_owned())),
            );
        }
        messages
    }

    /// The body of a chat request to the configured model.
    pub fn request_body(&self, messages: Vec<Value>, temperature: Value) -> (body: Value)
        ensures
            json::value_tree(body) == chat_request(
                self.config.vlm.model@,
                json::value_trees(messages@),
                json::value_tree(temperature),
            ),
            json::value_tree(body).entry("model"@) == JsonView::Str(self.config.vlm.model@),
            json::value_tree(body).entry("messages"@) == JsonView::Array(
                json::value_trees(messages@),
            ),
            json::value_tree(body).entry("temperature"@) == json::value_tree(temperature),
            json::value_tree(body).entry("max_tokens"@) == json::count(1024),
    {
        proof {
            requests_hold_every_message(
                self.config.vlm.model@,
                json::value_trees(messages@),
                json::value_tree(temperature),
            );
        }
        let mut map = serde_json::Map::new();
        json::put_text(&mut map, "model", self.config.vlm.model.as_str());
        json::put(&mut map, "messages", json::array_value(messages));
        json::put(&mut map, "temperature", temperature);
        json::put_count(&mut map, "max_tokens", MAX_TOKENS);
        json::object_value(map)
    }
}

/// Law: slashes at the end of the server's address make no difference, however
/// many there are.
pub proof fn trailing_slashes_make_no_difference(base_url: Seq<char>, slashes: Seq<char>)
    requires
        forall|i: int| 0 <= i < slashes.len() ==> slashes[i] == '/',
    ensures
        chat_url(base_url + slashes) == chat_url(base_url),
{
    text::trailing_slashes_are_cut(base_url, slashes);
}

/// Law: a user message holds one piece of text and then one picture for each
/// crop, in the order of the crops, as a data URL of the crop's base64 text.
pub proof fn one_picture_per_crop(timestamp: Seq<char>, crops: Seq<(u32, Seq<char>)>)
    ensures
        user_content(timestamp, crops) matches JsonView::Array(items) && items.len() == 1
            + crops.len(),
        user_content(timestamp, crops).item(0).entry("type"@) == JsonView::Str("text"@),
        forall|i: int|
            0 <= i < crops.len() ==> (#[trigger] user_content(timestamp, crops).item(i + 1)).entry(
                "image_url"@,
            ).entry("url"@) == JsonView::Str("data:image/jpeg;base64,"@ + crops[i].1),
{
    reveal_strlit("type");
    reveal_strlit("text");
    reveal_strlit("image_url");
    assert("type"@[1] != "text"@[1]);
    assert("type"@.len() != "image_url"@.len());
    assert forall|i: int| 0 <= i < crops.len() implies (#[trigger] user_content(
        timestamp,
        crops,
    ).item(i + 1)).entry("image_url"@).entry("url"@) == JsonView::Str(
        "data:image/jpeg;base64,"@ + crops[i].1,
    ) by {
        assert(user_content(timestamp, crops).item(i + 1) == image_part(crops[i].1));
    }
}

/// Law: in a conversation only the user message about the crops holds anything
/// but text.
pub proof fn only_one_message_holds_pictures(
    timestamp: Seq<char>,
    crops: Seq<(u32, Seq<char>)>,
    first_reply: Option<Seq<char>>,
    k: int,
)
    requires
        0 <= k < conversation(timestamp, crops, first_reply).len(),
    ensures
        conversation(timestamp, crops, first_reply)[k].entry("content"@) is Str <==> k != 1,
        k == 1 ==> conversation(timestamp, crops, first_reply)[k].entry("content"@)
            == user_content(timestamp, crops),
{
}

/// The keys of what is sent are all different where they stand side by side.
proof fn lemma_keys()
    ensures
        "type"@ != "text"@,
        "type"@ != "image_url"@,
        "role"@ != "content"@,
        "model"@ != "messages"@,
        "model"@ != "temperature"@,
        "model"@ != "max_tokens"@,
        "messages"@ != "temperature"@,
        "messages"@ != "max_tokens"@,
        "temperature"@ != "max_tokens"@,
{
    reveal_strlit("type");
    reveal_strlit("text");
    reveal_strlit("image_url");
    reveal_strlit("role");
    reveal_strlit("content");
    reveal_strlit("model");
    reveal_strlit("messages");
    reveal_strlit("temperature");
    reveal_strlit("max_tokens");
    assert("type"@[1] != "text"@[1]);
    assert("type"@.len() == 4 && "image_url"@.len() == 9 && "role"@.len() == 4);
    assert("content"@.len() == 7 && "model"@.len() == 5 && "messages"@.len() == 8);
    assert("temperature"@.len() == 11 && "max_tokens"@.len() == 10);
}

/// Law: requests go to `/v1/chat/completions` behind the server's address, from
/// which nothing but slashes at its end was cut.
pub proof fn requests_go_behind_the_address(base_url: Seq<char>) -> (kept: int)
    ensures
        0 <= kept <= base_url.len(),
        chat_url(base_url) == base_url.take(kept) + "/v1/chat/completions"@,
        forall|i: int| kept <= i < base_url.len() ==> #[trigger] base_url[i] == '/',
        kept > 0 ==> base_url[kept - 1] != '/',
{
    text::only_trailing_slashes_are_cut(base_url)
}

/// Law: the crops of a timestamp are seen whole and in order.
pub proof fn crops_are_seen_whole(crops: Seq<(u32, String)>)
    ensures
        crop_views(crops).len() == crops.len(),
        forall|i: int|
            0 <= i < crops.len() ==> (#[trigger] crop_views(crops)[i]).0 == crops[i].0
                && crop_views(crops)[i].1 == crops[i].1@,
{
}

/// Law: a face is named by its number.
pub proof fn one_face_in_words(crop: (u32, Seq<char>))
    ensures
        face_list(seq![crop]) == "face_id "@ + text::decimal(crop.0 as nat),
        face_list(Seq::<(u32, Seq<char>)>::empty()) == Seq::<char>::empty(),
{
}

/// Law: lists of faces are joined by a comma, so that every face is named, in
/// order.
pub proof fn faces_in_words_are_joined(
    front: Seq<(u32, Seq<char>)>,
    back: Seq<(u32, Seq<char>)>,
)
    requires
        front.len() > 0,
        back.len() > 0,
    ensures
        face_list(front + back) == face_list(front) + ", "@ + face_list(back),
    decreases back.len(),
{
    let all = front + back;
    assert(all.drop_last() == front + back.drop_last());
    assert(all.last() == back.last());
    let last = "face_id "@ + text::decimal(back.last().0 as nat);
    if back.len() == 1 {
        assert(front + back.drop_last() == front);
    } else {
        faces_in_words_are_joined(front, back.drop_last());
        assert(face_list(front) + ", "@ + face_list(back.drop_last()) + ", "@ + last =~= face_list(
            front,
        ) + ", "@ + (face_list(back.drop_last()) + ", "@ + last));
    }
}

/// Law: the user message about a timestamp. First come the words: the timestamp,
/// how many crops follow, and every face by its number. Then comes one picture
/// for each crop, in order, and nothing else.
pub proof fn user_messages_hold_every_crop(timestamp: Seq<char>, crops: Seq<(u32, Seq<char>)>)
    ensures
        ({
            let content = user_content(timestamp, crops);
            &&& content matches JsonView::Array(items) && items.len() == 1 + crops.len()
            &&& content.item(0).keys() == set!["type"@, "text"@]
            &&& content.item(0).entry("type"@) == JsonView::Str("text"@)
            &&& content.item(0).entry("text"@) == JsonView::Str(
                "Video timestamp "@ + timestamp + ": "@ + text::decimal(crops.len())
                    + " cropped face(s) follow, in face_id order ("@ + face_list(crops)
                    + "). Analyze them per the schema, using this exact timestamp value."@,
            )
            &&& forall|k: int|
                0 <= k < crops.len() ==> {
                    let picture = #[trigger] content.item(k + 1);
                    &&& picture.keys() == set!["type"@, "image_url"@]
                    &&& picture.entry("type"@) == JsonView::Str("image_url"@)
                    &&& picture.entry("image_url"@).keys() == set!["url"@]
                    &&& picture.entry("image_url"@).entry("url"@) == JsonView::Str(
                        "data:image/jpeg;base64,"@ + crops[k].1,
                    )
                }
        }),
{
    lemma_keys();
    let content = user_content(timestamp, crops);
    let words = text_part(crops_prompt(timestamp, crops));
    assert(content.item(0) == words);
    assert(words.keys() =~= set!["type"@, "text"@]);
    assert forall|k: int| 0 <= k < crops.len() implies {
        let picture = #[trigger] content.item(k + 1);
        &&& picture.keys() == set!["type"@, "image_url"@]
        &&& picture.entry("type"@) == JsonView::Str("image_url"@)
        &&& picture.entry("image_url"@).keys() == set!["url"@]
        &&& picture.entry("image_url"@).entry("url"@) == JsonView::Str(
            "data:image/jpeg;base64,"@ + crops[k].1,
        )
    } by {
        let picture = content.item(k + 1);
        assert(picture == image_part(crops[k].1));
        assert(picture.keys() =~= set!["type"@, "image_url"@]);
        assert(picture.entry("image_url"@).keys() =~= set!["url"@]);
    }
}

/// Law: a message says who speaks and what, and nothing else.
pub proof fn messages_name_their_role(role: Seq<char>, content: JsonView)
    ensures
        message(role, content).keys() == set!["role"@, "content"@],
        message(role, content).entry("role"@) == JsonView::Str(role),
        message(role, content).entry("content"@) == content,
{
    lemma_keys();
    assert(message(role, content).keys() =~= set!["role"@, "content"@]);
}

/// Law: a conversation opens with the system prompt and the user message about
/// the crops. Where there was a first reply, that reply follows, whole, and then
/// the reminder. There are no other messages.
pub proof fn conversations_in_order(
    timestamp: Seq<char>,
    crops: Seq<(u32, Seq<char>)>,
    first_reply: Option<Seq<char>>,
)
    ensures
        ({
            let messages = conversation(timestamp, crops, first_reply);
            &&& messages.len() == if first_reply is Some {
                4int
            } else {
                2
            }
            &&& forall|k: int|
                0 <= k < messages.len() ==> (#[trigger] messages[k]).keys() == set![
                    "role"@,
                    "content"@,
                ]
            &&& messages[0].entry("role"@) == JsonView::Str("system"@)
            &&& messages[0].entry("content"@) == JsonView::Str(VLM_SYSTEM_PROMPT@)
            &&& messages[1].entry("role"@) == JsonView::Str("user"@)
            &&& messages[1].entry("content"@) == user_content(timestamp, crops)
            &&& first_reply matches Some(reply) ==> {
                &&& messages[2].entry("role"@) == JsonView::Str("assistant"@)
                &&& messages[2].entry("content"@) == JsonView::Str(reply)
                &&& messages[3].entry("role"@) == JsonView::Str("user"@)
                &&& messages[3].entry("content"@) == JsonView::Str(VLM_JSON_RETRY_REMINDER@)
            }
        }),
{
    let messages = conversation(timestamp, crops, first_reply);
    messages_name_their_role("system"@, JsonView::Str(VLM_SYSTEM_PROMPT@));
    messages_name_their_role("user"@, user_content(timestamp, crops));
    messages_name_their_role("user"@, JsonView::Str(VLM_JSON_RETRY_REMINDER@));
    if let Some(reply) = first_reply {
        messages_name_their_role("assistant"@, JsonView::Str(reply));
    }
}

/// Law: asking again repeats the opening of the conversation unchanged.
pub proof fn asking_again_keeps_the_opening(
    timestamp: Seq<char>,
    crops: Seq<(u32, Seq<char>)>,
    first_reply: Seq<char>,
)
    ensures
        conversation(timestamp, crops, Some(first_reply)).take(2) == conversation(
            timestamp,
            crops,
            None,
        ),
{
}

/// Law: a request names the model, holds every message in order, and sets the
/// temperature and the limit of 1024 tokens, and nothing else.
pub proof fn requests_hold_every_message(
    model: Seq<char>,
    messages: Seq<JsonView>,
    temperature: JsonView,
)
    ensures
        ({
            let body = chat_request(model, messages, temperature);
            &&& body.keys() == set!["model"@, "messages"@, "temperature"@, "max_tokens"@]
            &&& body.entry("model"@) == JsonView::Str(model)
            &&& body.entry("messages"@) == JsonView::Array(messages)
            &&& body.entry("temperature"@) == temperature
            &&& body.entry("max_tokens"@) == JsonView::Number(text::decimal(1024))
        }),
{
    lemma_keys();
    assert(chat_request(model, messages, temperature).keys() =~= set![
        "model"@,
        "messages"@,
        "temperature"@,
        "max_tokens"@,
    ]);
}

/// Law: two requests to one model with one temperature are equal only if their
/// messages are.
pub proof fn requests_differ_where_messages_do(
    model: Seq<char>,
    one: Seq<JsonView>,
    other: Seq<JsonView>,
    temperature: JsonView,
)
    requires
        chat_request(model, one, temperature) == chat_request(model, other, temperature),
    ensures
        one == other,
{
    requests_hold_every_message(model, one, temperature);
    requests_hold_every_message(model, other, temperature);
}

/// Law: the fixed words and numbers of a request.
pub proof fn requests_in_words()
    ensures
        VLM_SYSTEM_PROMPT@ == "You are a visual analysis assistant. You receive cropped face images taken at one \
timestamp from a living-room camera. For each face, estimate the person's age range, \
race/ethnicity, and emotion, and note how confident the crops allow you to be. Then list \
plausible events happening in the living room given those faces. These are best-effort \
visual estimates, not identifications. Respond ONLY with valid JSON matching exactly this \
schema, with no markdown fences and no prose outside the JSON:\n\
{\n\
  \"timestamp\": \"<video timestamp>\",\n\
  \"faces\": [\n\
    {\"face_id\": 1, \"age_estimate\": \"...\", \"race_estimate\": \"...\", \
\"emotion\": \"...\", \"confidence_notes\": \"...\"}\n\
  ],\n\
  \"plausible_events\": [\"...\", \"...\"]\n\
}"@,
        VLM_JSON_RETRY_REMINDER@ == "Your previous reply was not valid JSON. Respond ONLY with valid JSON matching the \
schema you were given — no markdown fences, no explanations, nothing outside the JSON \
object."@,
        TEMPERATURE_TENTHS == 2,
{
}

} // verus!

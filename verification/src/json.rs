//! JSON values, as `serde_json` holds, reads and writes them.
//!
//! A `serde_json::Value` is a container that Verus does not look into. What it
//! holds has the name `value_tree`, and each operation that the library makes on
//! one is described over that name.

use vstd::prelude::*;

use crate::text;

verus! {

/// What a JSON value holds, as a mathematical tree.
#[verifier::ext_equal]
pub enum JsonView {
    Null,
    Bool(bool),
    /// A number, by the text that `serde_json` writes for it.
    Number(Seq<char>),
    Str(Seq<char>),
    Array(Seq<JsonView>),
    Object(Map<Seq<char>, JsonView>),
}

impl JsonView {
    /// What stands under `key`: `Null` where this is no object or holds no such
    /// key.
    pub open spec fn entry(self, key: Seq<char>) -> JsonView {
        match self {
            JsonView::Object(entries) => if entries.contains_key(key) {
                entries[key]
            } else {
                JsonView::Null
            },
            _ => JsonView::Null,
        }
    }

    /// The keys of this: none where it is no object.
    pub open spec fn keys(self) -> Set<Seq<char>> {
        match self {
            JsonView::Object(entries) => entries.dom(),
            _ => Set::<Seq<char>>::empty(),
        }
    }

    /// What stands at position `index`: `Null` where this is no array or has no
    /// such position.
    pub open spec fn item(self, index: int) -> JsonView {
        match self {
            JsonView::Array(items) => if 0 <= index < items.len() {
                items[index]
            } else {
                JsonView::Null
            },
            _ => JsonView::Null,
        }
    }

    /// Whether all numbers in this are whole and no more than `depth` arrays and
    /// objects stand inside one another.
    pub open spec fn whole_within(self, depth: nat) -> bool
        decreases depth,
    {
        match self {
            JsonView::Number(number) => is_whole(number),
            JsonView::Array(items) => depth > 0 && forall|i: int|
                0 <= i < items.len() ==> (#[trigger] items[i]).whole_within((depth - 1) as nat),
            JsonView::Object(entries) => depth > 0 && forall|key: Seq<char>|
                entries.contains_key(key) ==> (#[trigger] entries[key]).whole_within(
                    (depth - 1) as nat,
                ),
            _ => true,
        }
    }

    /// The text that this holds, where it is a string.
    pub open spec fn text(self) -> Option<Seq<char>> {
        match self {
            JsonView::Str(text) => Some(text),
            _ => None,
        }
    }
}

/// A count as a JSON number.
pub open spec fn count(n: nat) -> JsonView {
    JsonView::Number(text::decimal(n))
}

/// The digits of a whole number, with or without a minus sign in front. (A
/// floating-point number is written with a point or an exponent.)
pub open spec fn is_whole(number: Seq<char>) -> bool {
    exists|n: nat|
        number == #[trigger] text::decimal(n) || number == seq!['-'] + text::decimal(n)
}

/// How many arrays and objects may stand inside one another in a text that is
/// read as JSON.
pub const MAX_DEPTH: u64 = 127;

/// The trees of a list of values.
pub open spec fn value_trees(values: Seq<serde_json::Value>) -> Seq<JsonView> {
    values.map_values(|value: serde_json::Value| value_tree(value))
}

/// A JSON value, a container of strings, numbers and further values.
#[verifier::external_type_specification]
#[verifier::external_body]
pub struct ExValue(serde_json::Value);

/// The map behind a JSON object.
#[verifier::external_type_specification]
#[verifier::external_body]
#[verifier::reject_recursive_types(K)]
#[verifier::reject_recursive_types(V)]
pub struct ExMap<K, V>(serde_json::Map<K, V>);

/// What a JSON value holds.
pub uninterp spec fn value_tree(value: serde_json::Value) -> JsonView;

/// What the map behind a JSON object holds.
pub uninterp spec fn map_entries(
    map: serde_json::Map<String, serde_json::Value>,
) -> Map<Seq<char>, JsonView>;

/// What `serde_json::from_str` makes of a text that is read as a JSON value: the
/// value, or the message of the error.
pub uninterp spec fn parsed_json(text: Seq<char>) -> Result<JsonView, Seq<char>>;

/// What `serde_json::to_string_pretty` writes for a JSON value, if it succeeds.
/// (Objects are written in the order of their keys, as the map behind them is
/// ordered by key where `serde_json` is built without `preserve_order`.)
pub uninterp spec fn pretty_json(tree: JsonView) -> Option<Seq<char>>;

/// What the `Display` of `serde_json::Value` writes for a JSON value.
pub uninterp spec fn compact_json(tree: JsonView) -> Seq<char>;

/// Calls `serde_json::from_str` for a `Value`. The outcome is a function of the
/// text alone: the value that it describes, or an error, here by its message.
/// Only white space may stand around the value, so a text that is read as an
/// object starts with its opening brace and ends with its closing one.
#[verifier::external_body]
pub(crate) fn parse_json(text: &str) -> (parsed: Result<serde_json::Value, String>)
    ensures
        match parsed {
            Ok(value) => parsed_json(text@) == Ok::<JsonView, Seq<char>>(value_tree(value)),
            Err(message) => parsed_json(text@) == Err::<JsonView, Seq<char>>(message@),
        },
        match parsed {
            Ok(value) => value_tree(value) is Object ==> text::braced(text::trimmed(text@)),
            Err(_) => true,
        },
{
    serde_json::from_str::<serde_json::Value>(text).map_err(|error| error.to_string())
}

/// Calls `serde_json::to_string_pretty`. Whether it succeeds and what it writes
/// are functions of what the value holds.
#[verifier::external_body]
pub(crate) fn to_pretty_text(value: &serde_json::Value) -> (text: Option<String>)
    ensures
        match text {
            Some(text) => pretty_json(value_tree(*value)) == Some(text@),
            None => pretty_json(value_tree(*value)) is None,
        },
{
    serde_json::to_string_pretty(value).ok()
}

/// Calls `to_string` on a `serde_json::Value`. What it writes is a function of
/// what the value holds, and an object is written from brace to brace. Where all
/// numbers are whole and the nesting is no deeper than `serde_json` reads, it
/// reads the text back as what was written.
#[verifier::external_body]
pub(crate) fn to_compact_text(value: &serde_json::Value) -> (text: String)
    ensures
        text@ == compact_json(value_tree(*value)),
        value_tree(*value) is Object ==> text::braced(text@),
        value_tree(*value).whole_within(MAX_DEPTH as nat) ==> (parsed_json(text@) == Ok::<
            JsonView,
            Seq<char>,
        >(value_tree(*value))),
{
    value.to_string()
}

/// `serde_json::Value::is_object` tells whether a value is an object.
pub assume_specification[ serde_json::Value::is_object ](value: &serde_json::Value) -> (object: bool)
    ensures
        object == (value_tree(*value) is Object),
;

/// `serde_json::Value::as_str` gives the text of a string, and nothing of any
/// other value.
pub assume_specification[ serde_json::Value::as_str ](value: &serde_json::Value) -> (string: Option<&str>)
    ensures
        match string {
            Some(string) => value_tree(*value).text() == Some(string@),
            None => value_tree(*value).text() is None,
        },
;

/// `clone` of a `serde_json::Value` makes a value that holds the same.
pub assume_specification[ <serde_json::Value as Clone>::clone ](value: &serde_json::Value) -> (copy:
    serde_json::Value)
    ensures
        value_tree(copy) == value_tree(*value),
;

/// `serde_json::Value::as_object_mut` lends the map behind an object: what is
/// done to the map is done to the object. Of any other value it gives nothing.
pub assume_specification[ serde_json::Value::as_object_mut ](
    value: &mut serde_json::Value,
) -> (entries: Option<&mut serde_json::Map<String, serde_json::Value>>)
    ensures
        match entries {
            Some(map) => value_tree(*old(value)) == JsonView::Object(map_entries(*map))
                && value_tree(*final(value)) == JsonView::Object(map_entries(*final(map))),
            None => !(value_tree(*old(value)) is Object) && *final(value) == *old(value),
        },
;

/// `serde_json::Map::new` makes an empty map.
pub assume_specification[ serde_json::Map::<String, serde_json::Value>::new ]() -> (map:
    serde_json::Map<String, serde_json::Value>)
    ensures
        map_entries(map) == (Map::<Seq<char>, JsonView>::empty()),
;

/// `serde_json::Map::insert` sets the value under a key and hands back the value
/// that stood there before, if any.
pub assume_specification[ serde_json::Map::<String, serde_json::Value>::insert ](
    map: &mut serde_json::Map<String, serde_json::Value>,
    k: String,
    v: serde_json::Value,
) -> (replaced: Option<serde_json::Value>)
    ensures
        map_entries(*final(map)) == map_entries(*old(map)).insert(k@, value_tree(v)),
        match replaced {
            Some(value) => map_entries(*old(map)).contains_pair(k@, value_tree(value)),
            None => !map_entries(*old(map)).contains_key(k@),
        },
;

/// Indexes a `serde_json::Value` by a key: the value under the key of an object,
/// `Null` where there is none.
#[verifier::external_body]
pub(crate) fn entry<'a>(value: &'a serde_json::Value, key: &str) -> (found: &'a serde_json::Value)
    ensures
        value_tree(*found) == value_tree(*value).entry(key@),
{
    &value[key]
}

/// Indexes a `serde_json::Value` by a position: the value at that position of an
/// array, `Null` where there is none.
#[verifier::external_body]
pub(crate) fn item(value: &serde_json::Value, index: usize) -> (found: &serde_json::Value)
    ensures
        value_tree(*found) == value_tree(*value).item(index as int),
{
    &value[index]
}

/// Builds a `serde_json::Value::Null`.
#[verifier::external_body]
pub(crate) fn null_value() -> (value: serde_json::Value)
    ensures
        value_tree(value) == JsonView::Null,
{
    serde_json::Value::Null
}

/// Builds a `serde_json::Value::String`.
#[verifier::external_body]
pub(crate) fn string_value(text: String) -> (value: serde_json::Value)
    ensures
        value_tree(value) == JsonView::Str(text@),
{
    serde_json::Value::String(text)
}

/// Calls `serde_json::Value::from` on a `u64`, which makes a number that is
/// written in decimal.
#[verifier::external_body]
pub(crate) fn count_value(n: u64) -> (value: serde_json::Value)
    ensures
        value_tree(value) == count(n as nat),
{
    serde_json::Value::from(n)
}

/// Builds a `serde_json::Value::Array` of the given values, in order.
#[verifier::external_body]
pub(crate) fn array_value(items: Vec<serde_json::Value>) -> (value: serde_json::Value)
    ensures
        value_tree(value) == JsonView::Array(value_trees(items@)),
{
    serde_json::Value::Array(items)
}

/// Builds a `serde_json::Value::Object` of the given map.
#[verifier::external_body]
pub(crate) fn object_value(map: serde_json::Map<String, serde_json::Value>) -> (value:
    serde_json::Value)
    ensures
        value_tree(value) == JsonView::Object(map_entries(map)),
{
    serde_json::Value::Object(map)
}

/// Law: what is nested no deeper than one limit is nested no deeper than a larger
/// one.
pub proof fn larger_depth_holds_as_well(tree: JsonView, depth: nat, larger: nat)
    requires
        tree.whole_within(depth),
        depth <= larger,
    ensures
        tree.whole_within(larger),
    decreases depth,
{
    match tree {
        JsonView::Array(items) => {
            assert forall|i: int| 0 <= i < items.len() implies (#[trigger] items[i]).whole_within(
                (larger - 1) as nat,
            ) by {
                larger_depth_holds_as_well(items[i], (depth - 1) as nat, (larger - 1) as nat);
            }
        },
        JsonView::Object(entries) => {
            assert forall|key: Seq<char>| entries.contains_key(key) implies (
            #[trigger] entries[key]).whole_within((larger - 1) as nat) by {
                larger_depth_holds_as_well(entries[key], (depth - 1) as nat, (larger - 1) as nat);
            }
        },
        _ => {},
    }
}

/// Sets the value under `key`.
pub(crate) fn put(
    map: &mut serde_json::Map<String, serde_json::Value>,
    key: &str,
    value: serde_json::Value,
)
    ensures
        map_entries(*final(map)) == map_entries(*old(map)).insert(key@, value_tree(value)),
{
    let _ = map.insert(key.to_owned(), value);
}

/// Sets the string under `key`.
pub(crate) fn put_text(
    map: &mut serde_json::Map<String, serde_json::Value>,
    key: &str,
    text: &str,
)
    ensures
        map_entries(*final(map)) == map_entries(*old(map)).insert(key@, JsonView::Str(text@)),
{
    put(map, key, string_value(text.to_owned()));
}

/// Sets the number under `key`.
pub(crate) fn put_count(
    map: &mut serde_json::Map<String, serde_json::Value>,
    key: &str,
    n: u64,
)
    ensures
        map_entries(*final(map)) == map_entries(*old(map)).insert(key@, count(n as nat)),
{
    put(map, key, count_value(n));
}

/// Law: looking into a tree finds what stands there, and `Null` where nothing
/// does.
pub proof fn looking_into_a_tree(
    entries: Map<Seq<char>, JsonView>,
    items: Seq<JsonView>,
    words: Seq<char>,
    key: Seq<char>,
    index: int,
)
    ensures
        entries.contains_key(key) ==> JsonView::Object(entries).entry(key) == entries[key],
        !entries.contains_key(key) ==> JsonView::Object(entries).entry(key) == JsonView::Null,
        0 <= index < items.len() ==> JsonView::Array(items).item(index) == items[index],
        !(0 <= index < items.len()) ==> JsonView::Array(items).item(index) == JsonView::Null,
        JsonView::Str(words).text() == Some(words),
        forall|tree: JsonView| !(tree is Object) ==> #[trigger] tree.entry(key) == JsonView::Null,
        forall|tree: JsonView| !(tree is Array) ==> #[trigger] tree.item(index) == JsonView::Null,
        forall|tree: JsonView| !(tree is Str) ==> #[trigger] tree.text() is None,
{
}

/// Law: a list of values is seen whole and in order.
pub proof fn lists_are_seen_whole(values: Seq<serde_json::Value>)
    ensures
        value_trees(values).len() == values.len(),
        forall|i: int|
            0 <= i < values.len() ==> #[trigger] value_trees(values)[i] == value_tree(values[i]),
{
}

/// Law: a count is a number in decimal digits that reads as the count.
pub proof fn counts_read_as_their_number(n: nat)
    ensures
        count(n) matches JsonView::Number(digits) && text::number_in(digits) == n,
        count(n) == JsonView::Number(text::decimal(n)),
{
    text::decimals_read_as_their_number(n);
}

} // verus!

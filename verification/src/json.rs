//! JSON objects as `serde_json` holds them.

use vstd::prelude::*;

verus! {

/// A JSON object, such as the extra arguments of a chat request.
pub type JsonMap = serde_json::Map<String, serde_json::Value>;

/// The entries of a JSON object: keys in the object's own order, each with the
/// compact JSON text of its value.
pub type JsonEntries = Seq<(Seq<char>, Seq<char>)>;

/// `serde_json::Value`, a JSON value; nothing is claimed of what is inside.
#[verifier::external_type_specification]
#[verifier::external_body]
pub struct ExJsonValue(serde_json::Value);

/// `serde_json::Map`, the map type behind a JSON object.
#[verifier::external_type_specification]
#[verifier::external_body]
#[verifier::reject_recursive_types(K)]
#[verifier::reject_recursive_types(V)]
pub struct ExJsonMap<K, V>(serde_json::Map<K, V>);

/// What a JSON object holds: each key with the compact JSON text of its value,
/// in the order in which the object is walked.
pub uninterp spec fn json_entries(
    object: serde_json::Map<String, serde_json::Value>,
) -> Seq<(Seq<char>, Seq<char>)>;

/// What `serde_json::to_string` makes of an object with these entries: the text,
/// or the error's message.
pub uninterp spec fn json_object_text(entries: Seq<(Seq<char>, Seq<char>)>) -> Result<
    Seq<char>,
    Seq<char>,
>;

/// What `serde_json::from_str` makes of a text that is read as an object: its
/// entries, or the error's message.
pub uninterp spec fn parsed_json_object(text: Seq<char>) -> Result<
    Seq<(Seq<char>, Seq<char>)>,
    Seq<char>,
>;

/// JSON text without what its string literals hold: of these, the quotation marks
/// stay. `in_string` says whether the text starts inside a literal, where a backslash
/// takes the next character with it.
pub open spec fn outside_strings(text: Seq<char>, in_string: bool) -> Seq<char>
    decreases text.len(),
{
    if text.len() == 0 {
        Seq::empty()
    } else if text[0] == '"' {
        seq!['"'] + outside_strings(text.skip(1), !in_string)
    } else if !in_string {
        seq![text[0]] + outside_strings(text.skip(1), false)
    } else if text[0] == '\\' && text.len() > 1 {
        outside_strings(text.skip(2), true)
    } else {
        outside_strings(text.skip(1), true)
    }
}

/// How many arrays and objects are open at the end of a text without string literals.
pub open spec fn nesting(s: Seq<char>) -> int
    decreases s.len(),
{
    if s.len() == 0 {
        0
    } else if s.last() == '[' || s.last() == '{' {
        nesting(s.drop_last()) + 1
    } else if s.last() == ']' || s.last() == '}' {
        nesting(s.drop_last()) - 1
    } else {
        nesting(s.drop_last())
    }
}

/// A JSON value text that holds no number with a fraction or an exponent.
pub open spec fn is_float_free_value(text: Seq<char>) -> bool {
    let s = outside_strings(text, false);
    &&& !s.contains('.')
    &&& forall|i: int|
        0 <= i < s.len() - 1 && '0' <= #[trigger] s[i] <= '9' ==> s[i + 1] != 'e' && s[i + 1] != 'E'
}

/// Entries whose values hold no number with a fraction or an exponent.
pub open spec fn is_float_free(entries: Seq<(Seq<char>, Seq<char>)>) -> bool {
    forall|i: int| 0 <= i < entries.len() ==> is_float_free_value(#[trigger] entries[i].1)
}

/// A JSON value text that nests at most 126 levels deep; with the object around it
/// that makes the 127 levels that `serde_json` reads.
pub open spec fn is_shallow_value(text: Seq<char>) -> bool {
    let s = outside_strings(text, false);
    forall|n: int| 0 <= n <= s.len() ==> nesting(#[trigger] s.take(n)) <= 126
}

/// Entries whose values nest no deeper than `serde_json` reads.
pub open spec fn is_shallow(entries: Seq<(Seq<char>, Seq<char>)>) -> bool {
    forall|i: int| 0 <= i < entries.len() ==> is_shallow_value(#[trigger] entries[i].1)
}

/// Entries that some text is read as.
pub open spec fn is_readable(entries: Seq<(Seq<char>, Seq<char>)>) -> bool {
    exists|text: Seq<char>|
        #[trigger] parsed_json_object(text) == Ok::<JsonEntries, Seq<char>>(entries)
}

/// Entries that are the same after they were written as text and read back: they hold
/// no number with a fraction or an exponent, and they were read from some text or nest
/// no deeper than `serde_json` reads.
pub open spec fn is_rereadable(entries: Seq<(Seq<char>, Seq<char>)>) -> bool {
    is_float_free(entries) && (is_readable(entries) || is_shallow(entries))
}

/// A written text that is read back as these entries.
pub open spec fn reads_back_as(r: Result<String, String>, entries: JsonEntries) -> bool {
    &&& r matches Ok(text)
    &&& parsed_json_object(text@) == Ok::<JsonEntries, Seq<char>>(entries)
}

/// The view of an optional object.
pub open spec fn opt_entries(o: Option<JsonMap>) -> Option<JsonEntries> {
    match o {
        Some(object) => Some(json_entries(object)),
        None => None,
    }
}

/// The view of the text of an encoded object, or of the message of the failure.
pub open spec fn encoded_view(r: Result<String, String>) -> Result<Seq<char>, Seq<char>> {
    match r {
        Ok(text) => Ok(text@),
        Err(message) => Err(message@),
    }
}

/// The view of a parsed object, or of the message of the failure.
pub open spec fn parsed_view(r: Result<JsonMap, String>) -> Result<JsonEntries, Seq<char>> {
    match r {
        Ok(object) => Ok(json_entries(object)),
        Err(message) => Err(message@),
    }
}

/// `serde_json::Map::new` makes an object without entries.
#[verifier::external_body]
pub(crate) fn json_new() -> (r: JsonMap)
    ensures
        json_entries(r) == Seq::<(Seq<char>, Seq<char>)>::empty(),
{
    serde_json::Map::new()
}

/// `serde_json::Map::is_empty` says whether an object has no entries.
#[verifier::external_body]
pub(crate) fn json_is_empty(object: &JsonMap) -> (r: bool)
    ensures
        r == (json_entries(*object).len() == 0),
{
    object.is_empty()
}

/// `clone` of `serde_json::Map` makes an object with the same entries.
#[verifier::external_body]
pub(crate) fn json_clone(object: &JsonMap) -> (r: JsonMap)
    ensures
        json_entries(r) == json_entries(*object),
{
    object.clone()
}

/// `serde_json::to_string` of an object: its result depends on the entries alone;
/// it never fails, since every key of an object is a string and every value can be
/// written; the text opens with a brace. `serde_json::from_str` reads the text back
/// as the same object where no value holds a number with a fraction or an exponent,
/// and the nesting stays within the reader's limit, as it does if the object was itself
/// read from some text. Of other objects nothing is claimed in this respect: reading a
/// decimal fraction may change its last digit, and deeper nesting is not read.
#[verifier::external_body]
pub(crate) fn json_encode(object: &JsonMap) -> (r: Result<String, String>)
    ensures
        encoded_view(r) == json_object_text(json_entries(*object)),
        r is Ok,
        r->Ok_0@.len() > 0 && r->Ok_0@[0] == '{',
        is_rereadable(json_entries(*object)) ==> reads_back_as(r, json_entries(*object)),
{
    match serde_json::to_string(object) {
        Ok(text) => Ok(text),
        Err(err) => Err(err.to_string()),
    }
}

/// `serde_json::from_str` of a text that is to be an object: its result, the
/// message of a failure included, depends on the text alone.
#[verifier::external_body]
pub(crate) fn json_parse(text: &str) -> (r: Result<JsonMap, String>)
    ensures
        parsed_view(r) == parsed_json_object(text@),
{
    match serde_json::from_str::<JsonMap>(text) {
        Ok(object) => Ok(object),
        Err(err) => Err(err.to_string()),
    }
}

/// A copy of an optional object.
pub(crate) fn json_clone_opt(o: &Option<JsonMap>) -> (r: Option<JsonMap>)
    ensures
        opt_entries(r) == opt_entries(*o),
{
    match o {
        Some(object) => Some(json_clone(object)),
        None => None,
    }
}

/// An optional object is viewed as its entries, and none as none.
pub proof fn law_opt_entries(o: Option<JsonMap>)
    ensures
        match o {
            Some(object) => opt_entries(o) == Some(json_entries(object)),
            None => opt_entries(o) is None,
        },
{
}

/// What came of encoding is viewed as the text, or as the message.
pub proof fn law_encoded_view(r: Result<String, String>)
    ensures
        match r {
            Ok(text) => encoded_view(r) == Ok::<Seq<char>, Seq<char>>(text@),
            Err(message) => encoded_view(r) == Err::<Seq<char>, Seq<char>>(message@),
        },
{
}

/// What came of parsing is viewed as the entries, or as the message.
pub proof fn law_parsed_view(r: Result<JsonMap, String>)
    ensures
        match r {
            Ok(object) => parsed_view(r) == Ok::<JsonEntries, Seq<char>>(json_entries(object)),
            Err(message) => parsed_view(r) == Err::<JsonEntries, Seq<char>>(message@),
        },
{
}

} // verus!

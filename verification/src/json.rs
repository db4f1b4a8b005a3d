//! The JSON operations of the chunk store and of stored callbacks, made by
//! `serde_json`.
use vstd::prelude::*;
use crate::chunk::string_entries;

verus! {

/// `serde_json`'s error type, carried through unread.
#[verifier::external_type_specification]
#[verifier::external_body]
pub struct ExJsonError(serde_json::Error);

/// The members of the JSON object that `text` holds, as `serde_json` parses it
/// into a `serde_json::Map`: each key with `Some` of its value where that value
/// is a JSON string, `None` where it is any other JSON value; `None` overall
/// where `text` is not a JSON object.
pub uninterp spec fn json_object_entries(text: Seq<char>) -> Option<Seq<(Seq<char>, Option<Seq<char>>)>>;

/// A JSON value of one member of an object to write.
pub enum JsonScalar {
    Text(String),
    Number(u64),
    Null,
}

/// What a `JsonScalar` holds.
pub enum JsonScalarModel {
    Text(Seq<char>),
    Number(u64),
    Null,
}

impl DeepView for JsonScalar {
    type V = JsonScalarModel;

    open spec fn deep_view(&self) -> JsonScalarModel {
        match self {
            JsonScalar::Text(s) => JsonScalarModel::Text(s@),
            JsonScalar::Number(n) => JsonScalarModel::Number(*n),
            JsonScalar::Null => JsonScalarModel::Null,
        }
    }
}

/// The text that `serde_json::to_string` gives for the JSON object with the
/// given members, inserted in order into a `serde_json::Map`.
pub uninterp spec fn json_object_text_of(members: Seq<(Seq<char>, JsonScalarModel)>) -> Seq<char>;

/// The string members of the object with the given members: a later member
/// with a key replaces an earlier one, as inserting into a map does.
pub open spec fn text_members(members: Seq<(Seq<char>, JsonScalarModel)>) -> Map<Seq<char>, Seq<char>>
    decreases members.len(),
{
    if members.len() == 0 {
        Map::empty()
    } else {
        let m = text_members(members.drop_last());
        match members.last().1 {
            JsonScalarModel::Text(s) => m.insert(members.last().0, s),
            _ => m.remove(members.last().0),
        }
    }
}

/// Calls `serde_json::from_str::<serde_json::Map<String, serde_json::Value>>`
/// and lists the members of the parsed object. Claimed: the result is
/// `json_object_entries` of the text, and no key occurs twice in it (a
/// `serde_json::Map` holds each key once). Not claimed: anything about which
/// texts parse, or in which order the members come.
#[verifier::external_body]
pub(crate) fn parse_json_object(text: &str) -> (r: Option<Vec<(String, Option<String>)>>)
    ensures
        r.deep_view() == json_object_entries(text@),
        r matches Some(v) ==> forall|i: int, j: int|
            0 <= i < j < v@.len() ==> v@[i].0@ != v@[j].0@,
{
    match serde_json::from_str::<serde_json::Map<String, serde_json::Value>>(text) {
        Ok(map) => {
            let mut out = Vec::new();
            for (key, value) in map {
                out.push((key, match value { serde_json::Value::String(s) => Some(s), _ => None }));
            }
            Some(out)
        },
        Err(_) => None,
    }
}

/// Inserts the members in order into a `serde_json::Map` and calls
/// `serde_json::to_string` on the object. Claimed: serialising succeeds (a
/// `serde_json::Value` of strings, unsigned integers and nulls under string
/// keys always serialises); the text is `json_object_text_of` the members; it
/// holds no line feed (the compact writer emits no whitespace and escapes
/// control characters in strings); and parsing it back as a JSON object
/// gives exactly its string members.
#[verifier::external_body]
pub(crate) fn json_object_text(members: &Vec<(String, JsonScalar)>) -> (r: Result<String, serde_json::Error>)
    ensures
        r is Ok,
        r matches Ok(t) ==> {
            &&& t@ == json_object_text_of(members.deep_view())
            &&& !t@.contains('\n')
            &&& json_object_entries(t@) matches Some(e) && string_entries(e) == text_members(members.deep_view())
        },
{
    let mut map = serde_json::Map::new();
    for (key, value) in members.iter() {
        let value = match value {
            JsonScalar::Text(s) => serde_json::Value::from(s.as_str()),
            JsonScalar::Number(n) => serde_json::Value::from(*n),
            JsonScalar::Null => serde_json::Value::Null,
        };
        map.insert(key.clone(), value);
    }
    serde_json::to_string(&serde_json::Value::Object(map))
}

/// The compact text (`serde_json::Value`'s `Display`) of the JSON value that
/// `serde_json::from_str::<serde_json::Value>` parses from `text`; `None`
/// where `text` is not JSON.
pub uninterp spec fn json_value_text(text: Seq<char>) -> Option<Seq<char>>;

/// Calls `serde_json::from_str::<serde_json::Value>` and gives the compact
/// text of the parsed value. Claimed: the result is `json_value_text` of the
/// text. Nothing is claimed of which texts parse.
#[verifier::external_body]
pub(crate) fn parse_json_value(text: &str) -> (r: Option<String>)
    ensures
        r.deep_view() == json_value_text(text@),
{
    match serde_json::from_str::<serde_json::Value>(text) {
        Ok(v) => Some(v.to_string()),
        Err(_) => None,
    }
}

/// A member value of a JSON record to write.
pub enum RecordValue {
    /// A JSON string with this text.
    Text(String),
    /// The JSON value that this JSON text holds.
    Json(String),
    Null,
}

/// What a `RecordValue` holds.
pub enum RecordValueModel {
    Text(Seq<char>),
    Json(Seq<char>),
    Null,
}

impl DeepView for RecordValue {
    type V = RecordValueModel;

    open spec fn deep_view(&self) -> RecordValueModel {
        match self {
            RecordValue::Text(s) => RecordValueModel::Text(s@),
            RecordValue::Json(s) => RecordValueModel::Json(s@),
            RecordValue::Null => RecordValueModel::Null,
        }
    }
}

/// Every JSON text among the members is JSON.
pub open spec fn record_values_parse(members: Seq<(Seq<char>, RecordValueModel)>) -> bool {
    forall|i: int| 0 <= i < members.len() ==> ((#[trigger] members[i]).1 matches RecordValueModel::Json(t)
        ==> json_value_text(t) is Some)
}

/// No member holds a JSON text: each is a string or null.
pub open spec fn no_json_texts(members: Seq<(Seq<char>, RecordValueModel)>) -> bool {
    forall|i: int| 0 <= i < members.len() ==> !((#[trigger] members[i]).1 is Json)
}

/// A string or null member value as a `JsonScalarModel`; a JSON text, which
/// has no such counterpart, is given as null.
pub open spec fn scalar_of(v: RecordValueModel) -> JsonScalarModel {
    match v {
        RecordValueModel::Text(s) => JsonScalarModel::Text(s),
        _ => JsonScalarModel::Null,
    }
}

/// The members with their values as `JsonScalarModel`s.
pub open spec fn scalar_members(members: Seq<(Seq<char>, RecordValueModel)>) -> Seq<(Seq<char>, JsonScalarModel)> {
    members.map_values(|m: (Seq<char>, RecordValueModel)| (m.0, scalar_of(m.1)))
}

/// The text that `serde_json::to_string_pretty` gives for the JSON object
/// with the given members, inserted in order into a `serde_json::Map`.
pub uninterp spec fn json_pretty_text_of(members: Seq<(Seq<char>, RecordValueModel)>) -> Seq<char>;

/// Inserts the members in order into a `serde_json::Map`, each JSON text
/// parsed by `serde_json::from_str::<serde_json::Value>`, and calls
/// `serde_json::to_string_pretty` on the object. Claimed: it fails exactly
/// where one of the JSON texts does not parse (serialising a
/// `serde_json::Value` under string keys always succeeds), and on success
/// the text is `json_pretty_text_of` the members. Where every member is a
/// string or null, parsing the text back as a `serde_json::Value` gives the
/// same object, whose compact text is what `serde_json::to_string` writes
/// for it: strings are escaped and unescaped exactly, and the keys of both
/// maps are sorted. Not claimed where a member holds a JSON text: floats
/// are parsed back without guaranteed round-trip precision, and a value
/// nested to the parser's depth limit cannot be parsed back once nested
/// one level deeper.
#[verifier::external_body]
pub(crate) fn json_record_text(members: &Vec<(String, RecordValue)>) -> (r: Result<String, serde_json::Error>)
    ensures
        r is Ok <==> record_values_parse(members.deep_view()),
        r matches Ok(t) ==> t@ == json_pretty_text_of(members.deep_view()),
        r matches Ok(t) ==> (no_json_texts(members.deep_view())
            ==> json_value_text(t@) == Some(json_object_text_of(scalar_members(members.deep_view())))),
{
    let mut map = serde_json::Map::new();
    for (key, value) in members.iter() {
        let value = match value {
            RecordValue::Text(s) => serde_json::Value::from(s.as_str()),
            RecordValue::Json(t) => serde_json::from_str::<serde_json::Value>(t)?,
            RecordValue::Null => serde_json::Value::Null,
        };
        map.insert(key.clone(), value);
    }
    serde_json::to_string_pretty(&serde_json::Value::Object(map))
}

/// Calls `Display::to_string` on a `serde_json` error: the text that error
/// shows. Nothing is claimed of it.
#[verifier::external_body]
pub(crate) fn json_error_text(e: &serde_json::Error) -> (r: String) {
    e.to_string()
}

/// The string members of a stored chunk's metadata object.
pub open spec fn metadata_members(
    document_id: Seq<char>,
    document_title: Seq<char>,
    content_type: Seq<char>,
    source: Seq<char>,
    heading: Option<Seq<char>>,
) -> Map<Seq<char>, Seq<char>> {
    let m = Map::<Seq<char>, Seq<char>>::empty()
        .insert("document_id"@, document_id)
        .insert("document_title"@, document_title)
        .insert("content_type"@, content_type)
        .insert("source"@, source);
    match heading {
        Some(h) => m.insert("heading"@, h),
        None => m,
    }
}

} // verus!

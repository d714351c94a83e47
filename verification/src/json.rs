use vstd::prelude::*;

verus! {

#[verifier::external_type_specification]
#[verifier::external_body]
pub struct ExValue(serde_json::Value);

/// What a JSON value holds, as far as this library reads it: of a number it
/// is known only that it is one.
pub enum JsonModel {
    Null,
    Bool(bool),
    Number,
    Text(Seq<char>),
    List(Seq<JsonModel>),
    Record(Map<Seq<char>, JsonModel>),
}

impl JsonModel {
    /// The member under `key`, where the value is an object that has one.
    pub open spec fn member(self, key: Seq<char>) -> Option<JsonModel> {
        match self {
            JsonModel::Record(fields) => if fields.contains_key(key) {
                Some(fields[key])
            } else {
                None
            },
            _ => None,
        }
    }

    /// The characters of the value, where it is a string.
    pub open spec fn text(self) -> Option<Seq<char>> {
        match self {
            JsonModel::Text(s) => Some(s),
            _ => None,
        }
    }

    /// The string that may stand under `key`: none where the value has no
    /// such member or has `null` there, the string where it has one; nothing
    /// at all where something else stands there.
    pub open spec fn optional_text_member(self, key: Seq<char>) -> Option<Option<Seq<char>>> {
        match self.member(key) {
            None => Some(None),
            Some(JsonModel::Null) => Some(None),
            Some(JsonModel::Text(t)) => Some(Some(t)),
            Some(_) => None,
        }
    }

    /// The string under `key`, where the value is an object that has one.
    pub open spec fn text_member(self, key: Seq<char>) -> Option<Seq<char>> {
        match self.member(key) {
            Some(m) => m.text(),
            None => None,
        }
    }
}

/// What the value `v` of serde_json holds.
pub uninterp spec fn json_model(v: serde_json::Value) -> JsonModel;

/// What serde_json reads from `text`: what the document holds, or, where
/// serde_json does not take `text` for one JSON document, the words in which
/// its error says why.
pub uninterp spec fn json_document(text: Seq<char>) -> Result<JsonModel, Seq<char>>;

/// What `text` holds, where serde_json takes it for one JSON document.
pub open spec fn json_read(text: Seq<char>) -> Option<JsonModel> {
    match json_document(text) {
        Ok(doc) => Some(doc),
        Err(_) => None,
    }
}

/// `s` as serde_json writes it: a JSON string, quoted and escaped.
pub uninterp spec fn json_quoted(s: Seq<char>) -> Seq<char>;

/// Calls `serde_json::from_str` for a `Value`. The value that comes back
/// holds what `json_document` names for the text; an error comes back as the
/// text that its `Display` writes, which `json_document` names too.
#[verifier::external_body]
pub(crate) fn parse(text: &str) -> (r: Result<serde_json::Value, String>)
    ensures
        match r {
            Ok(v) => json_document(text@) == Ok::<JsonModel, Seq<char>>(json_model(v)),
            Err(why) => json_document(text@) == Err::<JsonModel, Seq<char>>(why@),
        },
{
    match serde_json::from_str::<serde_json::Value>(text) {
        Ok(v) => Ok(v),
        Err(e) => Err(e.to_string()),
    }
}

/// Calls `Value::get` with a text as the index: the member under `key` where
/// `v` is an object that has one, else nothing.
#[verifier::external_body]
pub(crate) fn member<'a>(v: &'a serde_json::Value, key: &str) -> (r: Option<&'a serde_json::Value>)
    ensures
        match r {
            Some(m) => json_model(*v).member(key@) == Some(json_model(*m)),
            None => json_model(*v).member(key@) is None,
        },
{
    v.get(key)
}

/// Calls `Value::as_str`: the characters of `v` where it is a string, else
/// nothing.
#[verifier::external_body]
pub(crate) fn as_text<'a>(v: &'a serde_json::Value) -> (r: Option<&'a str>)
    ensures
        match r {
            Some(s) => json_model(*v).text() == Some(s@),
            None => json_model(*v).text() is None,
        },
{
    v.as_str()
}

/// Calls `Value::is_null`.
#[verifier::external_body]
pub(crate) fn is_null(v: &serde_json::Value) -> (r: bool)
    ensures
        r == (json_model(*v) is Null),
{
    v.is_null()
}

/// Calls `serde_json::to_string` on a text, which cannot fail: the text as a
/// JSON string, known to contracts under the name `json_quoted`.
#[verifier::external_body]
pub(crate) fn quoted(s: &str) -> (r: String)
    ensures
        r@ == json_quoted(s@),
{
    serde_json::to_string(s).unwrap_or_default()
}

/// The string under `key` of the object `v`.
pub fn text_member<'a>(v: &'a serde_json::Value, key: &str) -> (r: Option<&'a str>)
    ensures
        match r {
            Some(s) => json_model(*v).text_member(key@) == Some(s@),
            None => json_model(*v).text_member(key@) is None,
        },
{
    match member(v, key) {
        Some(m) => as_text(m),
        None => None,
    }
}

/// The string that may stand under `key` of the object `v`.
pub fn optional_text_member(v: &serde_json::Value, key: &str) -> (r: Option<Option<String>>)
    ensures
        match json_model(*v).optional_text_member(key@) {
            Some(Some(t)) => r matches Some(Some(s)) && s@ == t,
            Some(None) => r matches Some(None),
            None => r is None,
        },
{
    match member(v, key) {
        None => Some(None),
        Some(m) => match as_text(m) {
            Some(t) => Some(Some(t.to_owned())),
            None => if is_null(m) {
                Some(None)
            } else {
                None
            },
        },
    }
}

} // verus!

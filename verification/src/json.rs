//! JSON documents as texts.
use vstd::prelude::*;

verus! {

/// The value of a member of a JSON object. `Document` and the items of `Documents` are JSON texts
/// themselves.
pub enum JsonValue {
    Null,
    Flag(bool),
    Int(i64),
    Unsigned(u64),
    Text(String),
    Document(String),
    Documents(Vec<String>),
}

/// A member of a JSON object.
pub struct JsonMember {
    pub name: &'static str,
    pub value: JsonValue,
}

/// The value of a member as plain values.
pub enum JsonValueView {
    Null,
    Flag(bool),
    Number(int),
    Text(Seq<char>),
    Document(Seq<char>),
    Documents(Seq<Seq<char>>),
}

impl View for JsonValue {
    type V = JsonValueView;

    open spec fn view(&self) -> JsonValueView {
        match self {
            JsonValue::Null => JsonValueView::Null,
            JsonValue::Flag(b) => JsonValueView::Flag(*b),
            JsonValue::Int(n) => JsonValueView::Number(*n as int),
            JsonValue::Unsigned(n) => JsonValueView::Number(*n as int),
            JsonValue::Text(t) => JsonValueView::Text(t@),
            JsonValue::Document(t) => JsonValueView::Document(t@),
            JsonValue::Documents(l) => JsonValueView::Documents(crate::text::texts(l@)),
        }
    }
}

/// A member as plain values.
pub type JsonMemberView = (Seq<char>, JsonValueView);

impl View for JsonMember {
    type V = JsonMemberView;

    open spec fn view(&self) -> JsonMemberView {
        (self.name@, self.value@)
    }
}

/// The members of an object as plain values.
pub open spec fn members_view(members: Seq<JsonMember>) -> Seq<JsonMemberView> {
    members.map_values(|m: JsonMember| m@)
}

/// The text that `serde_json` writes for an object with these members.
pub uninterp spec fn json_object_text(members: Seq<JsonMemberView>) -> Seq<char>;

/// What `serde_json` makes of a text as a JSON document: the text that it writes for the document,
/// or the error that it raises.
pub uninterp spec fn json_reading(text: Seq<char>) -> Result<Seq<char>, Seq<char>>;

/// The error that `serde_json` raises on reading a text as a JSON document, if any.
pub open spec fn json_reading_fault(text: Seq<char>) -> Option<Seq<char>> {
    match json_reading(text) {
        Ok(_) => None,
        Err(e) => Some(e),
    }
}

/// The text that `serde_json` writes for the document that a text holds. A text that holds none
/// stands for itself.
pub open spec fn json_rewriting(text: Seq<char>) -> Seq<char> {
    match json_reading(text) {
        Ok(t) => t,
        Err(_) => text,
    }
}

/// The text that a JSON document holds under a name, where it is an object that does.
pub uninterp spec fn json_text_member(text: Seq<char>, name: Seq<char>) -> Option<Seq<char>>;

/// The number that a JSON document holds under a name, where it is an object that does.
pub uninterp spec fn json_unsigned_member(text: Seq<char>, name: Seq<char>) -> Option<u64>;

/// The truth value that a JSON document holds under a name, where it is an object that does.
pub uninterp spec fn json_flag_member(text: Seq<char>, name: Seq<char>) -> Option<bool>;

/// The texts that a JSON list holds, or the error that `serde_json` raises on reading it.
pub uninterp spec fn json_texts_reading(text: Seq<char>) -> Result<Seq<Seq<char>>, Seq<char>>;

/// Whether two texts are the same to `serde_json`: equal documents, or both unreadable.
pub uninterp spec fn json_equal(a: Seq<char>, b: Seq<char>) -> bool;

/// `serde_json::Value::to_string` of an object with these members, which depends on their names
/// and values alone. A nested document that cannot be read stands as null.
#[verifier::external_body]
pub(crate) fn object_text(members: &Vec<JsonMember>) -> (r: String)
    ensures
        r@ == json_object_text(members_view(members@)),
{
    let read = |text: &String| serde_json::from_str(text).unwrap_or(serde_json::Value::Null);
    let value = |m: &JsonMember| match &m.value {
        JsonValue::Null => serde_json::Value::Null,
        JsonValue::Flag(b) => (*b).into(),
        JsonValue::Int(n) => (*n).into(),
        JsonValue::Unsigned(n) => (*n).into(),
        JsonValue::Text(t) => t.as_str().into(),
        JsonValue::Document(t) => read(t),
        JsonValue::Documents(l) => l.iter().map(read).collect(),
    };
    let entries = members.iter().map(|m| (m.name.into(), value(m)));
    serde_json::Value::Object(entries.collect()).to_string()
}

/// `serde_json::from_str` into `serde_json::Value`, and `Value::to_string` of what was read: the
/// document as it is written, or the text of the error.
#[verifier::external_body]
pub(crate) fn read_document(text: &str) -> (r: Result<String, String>)
    ensures
        match r {
            Ok(t) => json_reading(text@) == Ok::<Seq<char>, Seq<char>>(t@),
            Err(e) => json_reading(text@) == Err::<Seq<char>, Seq<char>>(e@),
        },
{
    let document = serde_json::from_str::<serde_json::Value>(text);
    document.map(|v| v.to_string()).map_err(|e| e.to_string())
}

/// The error that reading a text as a JSON document raises, if any.
pub fn reading_fault(text: &str) -> (r: Option<String>)
    ensures
        match r {
            Some(e) => json_reading_fault(text@) == Some(e@),
            None => json_reading_fault(text@) is None,
        },
{
    match read_document(text) {
        Ok(_) => None,
        Err(e) => Some(e),
    }
}

/// The document that a text holds, as it is written; a text that holds none is kept.
pub fn rewritten(text: &str) -> (r: String)
    ensures
        r@ == json_rewriting(text@),
{
    match read_document(text) {
        Ok(t) => t,
        Err(_) => text.to_owned(),
    }
}

/// `serde_json::from_str`, `Value::get` and `Value::as_str`: the text under a name, and nothing
/// where the document cannot be read.
#[verifier::external_body]
pub(crate) fn text_member(text: &str, name: &str) -> (r: Option<String>)
    ensures
        match r {
            Some(t) => json_text_member(text@, name@) == Some(t@),
            None => json_text_member(text@, name@) is None,
        },
{
    let document = serde_json::from_str::<serde_json::Value>(text).ok()?;
    document.get(name)?.as_str().map(str::to_string)
}

/// `serde_json::from_str`, `Value::get` and `Value::as_u64`: the number under a name, and nothing
/// where the document cannot be read.
#[verifier::external_body]
pub(crate) fn unsigned_member(text: &str, name: &str) -> (r: Option<u64>)
    ensures
        r == json_unsigned_member(text@, name@),
{
    let document = serde_json::from_str::<serde_json::Value>(text).ok()?;
    document.get(name)?.as_u64()
}

/// `serde_json::from_str`, `Value::get` and `Value::as_bool`: the truth value under a name, and
/// nothing where the document cannot be read.
#[verifier::external_body]
pub(crate) fn flag_member(text: &str, name: &str) -> (r: Option<bool>)
    ensures
        r == json_flag_member(text@, name@),
{
    let document = serde_json::from_str::<serde_json::Value>(text).ok()?;
    document.get(name)?.as_bool()
}

/// `serde_json::from_str` into a list of texts.
#[verifier::external_body]
pub(crate) fn read_texts(text: &str) -> (r: Result<Vec<String>, String>)
    ensures
        match r {
            Ok(l) => json_texts_reading(text@) == Ok::<Seq<Seq<char>>, Seq<char>>(
                crate::text::texts(l@),
            ),
            Err(e) => json_texts_reading(text@) == Err::<Seq<Seq<char>>, Seq<char>>(e@),
        },
{
    serde_json::from_str::<Vec<String>>(text).map_err(|e| e.to_string())
}

/// Equality of `serde_json::Value` after `serde_json::from_str` of both texts.
#[verifier::external_body]
pub(crate) fn same_document(a: &str, b: &str) -> (r: bool)
    ensures
        r == json_equal(a@, b@),
{
    let read = |text: &str| serde_json::from_str::<serde_json::Value>(text).ok();
    read(a) == read(b)
}

} // verus!

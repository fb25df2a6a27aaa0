//! JSON documents as plain data, read and written by `serde_json`.

use vstd::prelude::*;

verus! {

/// A JSON value.
///
/// Of a number the library keeps what `serde_json::Number::as_u64` gives:
/// `Some(n)` where `serde_json` holds the number as the unsigned integer
/// `n`, as it does for one written with digits alone and below 2^64, and
/// `None` for every other number, such as one with a sign, a fraction or an
/// exponent.
#[derive(Debug, PartialEq, Eq)]
pub enum Json {
    Null,
    Bool(bool),
    Number(Option<u64>),
    Text(String),
    Array(Vec<Json>),
    /// The members with their names, in their order.
    Object(Vec<(String, Json)>),
}

/// A JSON value as plain mathematical data.
pub enum JsonView {
    Null,
    Bool(bool),
    Number(Option<u64>),
    Text(Seq<char>),
    Array(Seq<JsonView>),
    Object(Seq<(Seq<char>, JsonView)>),
}

impl View for Json {
    type V = JsonView;

    open spec fn view(&self) -> JsonView
        decreases self,
    {
        match self {
            Json::Null => JsonView::Null,
            Json::Bool(b) => JsonView::Bool(*b),
            Json::Number(n) => JsonView::Number(*n),
            Json::Text(s) => JsonView::Text(s@),
            Json::Array(items) => JsonView::Array(
                Seq::new(
                    items@.len(),
                    |i: int|
                        if 0 <= i < items@.len() {
                            items@[i]@
                        } else {
                            JsonView::Null
                        },
                ),
            ),
            Json::Object(members) => JsonView::Object(
                Seq::new(
                    members@.len(),
                    |i: int|
                        if 0 <= i < members@.len() {
                            (members@[i].0@, members@[i].1@)
                        } else {
                            (Seq::empty(), JsonView::Null)
                        },
                ),
            ),
        }
    }
}

/// The views of the elements of an array.
pub open spec fn items_view(items: Seq<Json>) -> Seq<JsonView> {
    Seq::new(items.len(), |i: int| items[i]@)
}

/// The members of an object, each with the views of its name and value.
pub open spec fn members_view(members: Seq<(String, Json)>) -> Seq<(Seq<char>, JsonView)> {
    Seq::new(members.len(), |i: int| (members[i].0@, members[i].1@))
}

/// Neither an array nor an object.
pub open spec fn is_scalar(value: JsonView) -> bool {
    !(value is Array) && !(value is Object)
}

/// An object whose members are scalars.
pub open spec fn is_row(value: JsonView) -> bool {
    value matches JsonView::Object(members) && forall|k: int|
        0 <= k < members.len() ==> is_scalar((#[trigger] members[k]).1)
}

/// An array of objects whose members are scalars: a document that is two
/// levels deep.
pub open spec fn is_table(doc: JsonView) -> bool {
    doc matches JsonView::Array(rows) && forall|i: int|
        0 <= i < rows.len() ==> is_row(#[trigger] rows[i])
}

/// The view of an array holds the views of its elements.
pub proof fn lemma_array_view(items: Vec<Json>)
    ensures
        Json::Array(items)@ == JsonView::Array(items_view(items@)),
{
    reveal_with_fuel(<Json as View>::view, 2);
    assert(Json::Array(items)@->Array_0 =~= items_view(items@));
}

/// The view of an object holds the views of its members.
pub proof fn lemma_object_view(members: Vec<(String, Json)>)
    ensures
        Json::Object(members)@ == JsonView::Object(members_view(members@)),
{
    reveal_with_fuel(<Json as View>::view, 2);
    assert(Json::Object(members)@->Object_0 =~= members_view(members@));
}

/// `serde_json::Error`: why `serde_json` gave no result. The library only
/// passes it on; what is inside is not looked at.
#[verifier::external_type_specification]
#[verifier::external_body]
pub struct ExJsonError(serde_json::Error);

/// `serde_json::Value`: a document as `serde_json` holds it. It only passes
/// between `serde_json` and the two functions that convert it.
#[verifier::external_type_specification]
#[verifier::external_body]
pub struct ExJsonValue(serde_json::Value);

/// The document that `serde_json::from_str` reads from a text, where it
/// accepts the text.
pub uninterp spec fn parsed_document(text: Seq<char>) -> Option<JsonView>;

/// The text that `serde_json::to_string_pretty` writes for a document, where
/// it writes one.
pub uninterp spec fn rendered_document(doc: JsonView) -> Option<Seq<char>>;

/// Turns a `serde_json::Value` into a [`Json`], variant by variant; a number
/// becomes what `serde_json::Number::as_u64` gives for it. Nothing is claimed
/// of the result here: what is read from a text has its name in
/// [`parsed_document`].
#[verifier::external_body]
fn json_from_value(value: serde_json::Value) -> Json {
    match value {
        serde_json::Value::Null => Json::Null,
        serde_json::Value::Bool(b) => Json::Bool(b),
        serde_json::Value::Number(n) => Json::Number(n.as_u64()),
        serde_json::Value::String(s) => Json::Text(s),
        serde_json::Value::Array(items) => Json::Array(
            items.into_iter().map(json_from_value).collect(),
        ),
        serde_json::Value::Object(members) => Json::Object(
            members.into_iter().map(|(k, v)| (k, json_from_value(v))).collect(),
        ),
    }
}

/// Turns a [`Json`] into a `serde_json::Value`, variant by variant; a number
/// goes through `serde_json::Value::from`, which gives `null` for one without
/// a value. Nothing is claimed of the result here: what is written for a
/// document has its name in [`rendered_document`].
#[verifier::external_body]
fn value_from_json(doc: &Json) -> serde_json::Value {
    match doc {
        Json::Null => serde_json::Value::Null,
        Json::Bool(b) => serde_json::Value::Bool(*b),
        Json::Number(n) => serde_json::Value::from(*n),
        Json::Text(s) => serde_json::Value::String(s.clone()),
        Json::Array(items) => serde_json::Value::Array(
            items.iter().map(value_from_json).collect(),
        ),
        Json::Object(members) => serde_json::Value::Object(
            members.iter().map(|m| (m.0.clone(), value_from_json(&m.1))).collect(),
        ),
    }
}

/// Reads a text with `serde_json::from_str`, asking for a `serde_json::Value`.
///
/// Believed, not proved: the outcome depends on the text alone. It is `Ok`
/// exactly where [`parsed_document`] names a document, and then holds that
/// document. Which texts are accepted is left to `serde_json`.
#[verifier::external_body]
pub(crate) fn parse_document(text: &str) -> (r: Result<Json, serde_json::Error>)
    ensures
        r is Ok <==> parsed_document(text@) is Some,
        r matches Ok(doc) ==> parsed_document(text@) == Some(doc@),
{
    match serde_json::from_str::<serde_json::Value>(text) {
        Ok(value) => Ok(json_from_value(value)),
        Err(e) => Err(e),
    }
}

/// Writes a document with `serde_json::to_string_pretty`.
///
/// Believed, not proved: the outcome depends on the document alone. It is
/// `Ok` exactly where [`rendered_document`] names a text, and then holds that
/// text. How the text looks is left to `serde_json`. The document has to be
/// a table, since `serde_json` walks a document to its full depth.
#[verifier::external_body]
pub(crate) fn render_document(doc: &Json) -> (r: Result<String, serde_json::Error>)
    requires
        is_table(doc@),
    ensures
        r is Ok <==> rendered_document(doc@) is Some,
        r matches Ok(text) ==> rendered_document(doc@) == Some(text@),
{
    serde_json::to_string_pretty(&value_from_json(doc))
}

} // verus!


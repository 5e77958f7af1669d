//! Detection of the encoding of a scene. A scene comes either as structured
//! text or in the binary encoding, with nothing that says which: bytes that
//! read as structured text are text, whatever else they may be.

use vstd::prelude::*;
use serde_json::Value;
use crate::errors::{SceneFault, SceneIOError};
use crate::json::{JsonObject, JsonTree, JsonValue, Member};
use crate::normalize::{document_normal, normalize};

verus! {

/// `serde_json::Value`, the value that the text reader builds. Nothing of
/// its inside is known here: it is handed on to be copied into a document.
#[verifier::external_type_specification]
#[verifier::external_body]
pub struct ExValue(serde_json::Value);

/// The document that a value of the text reader holds.
pub uninterp spec fn value_tree(value: Value) -> JsonTree;

/// What bytes read as when taken for structured text: the document they
/// denote, or the reader's complaint.
pub uninterp spec fn text_reading(data: Seq<u8>) -> Result<JsonTree, Seq<char>>;

/// `serde_json::from_slice` at `serde_json::Value`: reads bytes as one
/// structured-text value. The outcome is the reading of the bytes; a failure
/// is handed out as the text of the reader's error.
#[verifier::external_body]
fn read_text(data: &[u8]) -> (r: Result<Value, String>)
    ensures
        match r {
            Ok(value) => text_reading(data@) == Ok::<JsonTree, Seq<char>>(value_tree(value)),
            Err(complaint) => text_reading(data@) == Err::<JsonTree, Seq<char>>(complaint@),
        },
{
    serde_json::from_slice::<Value>(data).map_err(|error| error.to_string())
}

/// Copies a `serde_json::Value` into a document, variant by variant: a
/// number by the text that `serde_json::Number` prints for it, an object by
/// its entries as `serde_json::Map::iter` gives them. The copy is the
/// document that the value holds.
#[verifier::external_body]
fn lift(value: &Value) -> (r: JsonValue)
    ensures
        r@ == value_tree(*value),
{
    match value {
        Value::Null => JsonValue::Null,
        Value::Bool(b) => JsonValue::Bool(*b),
        Value::Number(number) => JsonValue::Number(number.to_string()),
        Value::String(text) => JsonValue::Text(text.clone()),
        Value::Array(items) => JsonValue::Array(items.iter().map(lift).collect()),
        Value::Object(fields) => JsonValue::Object(
            JsonObject {
                members: fields.iter().map(
                    |(key, value)| Member { key: key.clone(), value: lift(value) },
                ).collect(),
            },
        ),
    }
}

/// What the bytes of a scene turned out to be.
#[derive(Debug, PartialEq, Eq)]
pub enum Decoded {
    /// Structured text. This is its document, brought into canonical shape:
    /// what strict reading of the scene starts from.
    Document(JsonValue),
    /// No structured text, so the bytes can only be the binary encoding.
    /// `complaint` is what the text reader said of them; it describes the
    /// failure if they turn out not to be a binary scene either.
    Binary { complaint: String },
}

/// What `decode_reading` returned, held against the reading it was given.
pub open spec fn decode_outcome(
    returned: Result<Decoded, SceneIOError>,
    reading: Result<JsonTree, Seq<char>>,
) -> bool {
    match returned {
        Ok(Decoded::Document(document)) => {
            &&& reading is Ok
            &&& document_normal(reading->Ok_0) == Ok::<JsonTree, Seq<char>>(document@)
        },
        Ok(Decoded::Binary { complaint }) => reading == Err::<JsonTree, Seq<char>>(complaint@),
        Err(failure) => {
            &&& reading is Ok
            &&& document_normal(reading->Ok_0) is Err
            &&& failure@ == SceneFault::FailedToDecode(document_normal(reading->Ok_0)->Err_0)
        },
    }
}

/// What `reading` stands for when it is a document or a complaint.
pub open spec fn reading_view(reading: Result<JsonValue, String>) -> Result<JsonTree, Seq<char>> {
    match reading {
        Ok(document) => Ok(document@),
        Err(complaint) => Err(complaint@),
    }
}

/// Decides what to do with bytes from what the text reader made of them.
/// A document is normalized, and a violation of its shape is final: it is
/// not tried as binary. A complaint sends the bytes to the binary reader.
pub fn decode_reading(reading: Result<JsonValue, String>) -> (r: Result<Decoded, SceneIOError>)
    ensures
        decode_outcome(r, reading_view(reading)),
{
    match reading {
        Ok(document) => match normalize(&document) {
            Ok(normal) => Ok(Decoded::Document(normal)),
            Err(failure) => Err(failure),
        },
        Err(complaint) => Ok(Decoded::Binary { complaint }),
    }
}

/// Detects the encoding of `data`, and normalizes the document if it is
/// text.
pub fn decode(data: &[u8]) -> (r: Result<Decoded, SceneIOError>)
    ensures
        decode_outcome(r, text_reading(data@)),
{
    let reading = match read_text(data) {
        Ok(value) => Ok(lift(&value)),
        Err(complaint) => Err(complaint),
    };
    decode_reading(reading)
}

} // verus!

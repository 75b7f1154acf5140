//! Conversion between the JSON bytes the store components exchange and the
//! BSON documents MongoDB stores. A document is handed to a component as the
//! JSON text of its fields without MongoDB's `_id`; a filter or a new
//! document arrives from a component as JSON text.
use vstd::prelude::*;

use mongodb::bson::Document;

verus! {

#[verifier::external_type_specification]
#[verifier::external_body]
pub struct ExDocument(mongodb::bson::Document);

#[verifier::external_type_specification]
#[verifier::external_body]
pub struct ExJsonValue(serde_json::Value);

#[verifier::external_type_specification]
#[verifier::external_body]
pub struct ExJsonError(serde_json::Error);

#[verifier::external_type_specification]
#[verifier::external_body]
pub struct ExBsonDeError(mongodb::bson::de::Error);

#[verifier::external_type_specification]
#[verifier::external_body]
pub struct ExBsonSerError(mongodb::bson::ser::Error);

/// Which step of a conversion failed.
#[derive(PartialEq, Eq, Structural, Clone, Copy, Debug)]
pub enum ConversionStep {
    /// The bytes are not JSON text.
    ParseJson,
    /// The JSON value is not a document.
    JsonToBson,
    /// The document holds a value JSON cannot represent.
    BsonToJson,
    /// Writing JSON text failed.
    WriteJson,
}

/// A failed conversion: the step, and the converting crate's message.
pub struct ConversionError {
    pub step: ConversionStep,
    pub message: String,
}

/// The keys of a document, in the document's order (each key occurs once).
pub uninterp spec fn document_keys(doc: Document) -> Seq<Seq<char>>;

/// The document `Document::remove` leaves of `doc` when it removes `key`.
pub uninterp spec fn without_field(doc: Document, key: Seq<char>) -> Document;

/// What `bson::from_document` gives for `doc` as a JSON value: the value, or
/// `None` where it fails.
pub uninterp spec fn document_value(doc: Document) -> Option<serde_json::Value>;

/// The JSON text `serde_json::to_vec` writes for `value`.
pub uninterp spec fn value_json(value: serde_json::Value) -> Seq<u8>;

/// The JSON value `serde_json::from_slice` reads from `bytes`, or `None` where
/// the bytes are not one JSON value followed by nothing but whitespace.
pub uninterp spec fn json_value(bytes: Seq<u8>) -> Option<serde_json::Value>;

/// The document `bson::to_document` makes of `value`, or `None` where it fails.
pub uninterp spec fn value_document(value: serde_json::Value) -> Option<Document>;

/// A copy of `doc` (`Document::clone`, derived over its ordered map): the
/// same document.
#[verifier::external_body]
fn copy_document(doc: &Document) -> (r: Document)
    ensures
        r == *doc,
{
    doc.clone()
}

/// Removes the field `key` of `doc` (`Document::remove`, an order-keeping
/// removal from its ordered map): the document is `without_field` of it, and
/// the other keys stay, in order.
#[verifier::external_body]
fn remove_field(doc: &mut Document, key: &str)
    ensures
        *final(doc) == without_field(*old(doc), key@),
        document_keys(*final(doc)) == document_keys(*old(doc)).filter(|k: Seq<char>| k != key@),
{
    doc.remove(key);
}

/// The document a component is shown of a stored one: every field but
/// MongoDB's `_id`, in the stored order.
pub fn without_id(doc: &Document) -> (r: Document)
    ensures
        r == without_field(*doc, "_id"@),
        document_keys(r) == document_keys(*doc).filter(|k: Seq<char>| k != "_id"@),
{
    let mut shown = copy_document(doc);
    remove_field(&mut shown, "_id");
    shown
}

/// Deserializes a document into a JSON value (`bson::from_document`): it
/// succeeds exactly where `document_value` is some value, and gives that value.
#[verifier::external_body]
fn document_to_value(doc: Document) -> (r: Result<serde_json::Value, mongodb::bson::de::Error>)
    ensures
        r is Ok <==> document_value(doc) is Some,
        r matches Ok(v) ==> document_value(doc) == Some(v),
{
    mongodb::bson::from_document::<serde_json::Value>(doc)
}

/// Writes a JSON value as JSON text (`serde_json::to_vec`). Claims that it
/// succeeds: its documentation names only a `Serialize` impl that fails and
/// non-string map keys as causes of failure, and `Value`'s impl never fails
/// on its own and has string keys only. The text is `value_json` of the value.
#[verifier::external_body]
fn value_to_json(value: &serde_json::Value) -> (r: Result<Vec<u8>, serde_json::Error>)
    ensures
        r is Ok,
        r matches Ok(b) ==> b@ == value_json(*value),
{
    serde_json::to_vec(value)
}

/// Parses JSON text into a JSON value (`serde_json::from_slice`): it succeeds
/// exactly where `json_value` is some value, and gives that value.
#[verifier::external_body]
fn json_to_value(bytes: &[u8]) -> (r: Result<serde_json::Value, serde_json::Error>)
    ensures
        r is Ok <==> json_value(bytes@) is Some,
        r matches Ok(v) ==> json_value(bytes@) == Some(v),
{
    serde_json::from_slice::<serde_json::Value>(bytes)
}

/// Serializes a JSON value into a document (`bson::to_document`): it succeeds
/// exactly where `value_document` is some document, and gives that document.
#[verifier::external_body]
fn value_to_document(value: &serde_json::Value) -> (r: Result<Document, mongodb::bson::ser::Error>)
    ensures
        r is Ok <==> value_document(*value) is Some,
        r matches Ok(d) ==> value_document(*value) == Some(d),
{
    mongodb::bson::to_document(value)
}

/// The JSON text a component is shown of a stored document: the text of the
/// document without its `_id`, or `None` where it has no JSON value.
pub open spec fn shown_json(doc: Document) -> Option<Seq<u8>> {
    match document_value(without_field(doc, "_id"@)) {
        Some(v) => Some(value_json(v)),
        None => None,
    }
}

/// The fields a component is shown of a stored document are exactly the
/// stored fields other than `_id`: every other key is kept, `_id` is not, and
/// nothing is added.
pub proof fn lemma_shown_keys(keys: Seq<Seq<char>>, k: Seq<char>)
    ensures
        keys.filter(|x: Seq<char>| x != "_id"@).contains(k) <==> (keys.contains(k) && k != "_id"@),
        keys.filter(|x: Seq<char>| x != "_id"@).len() <= keys.len(),
{
    let pred = |x: Seq<char>| x != "_id"@;
    broadcast use vstd::seq_lib::group_filter_ensures;
    if keys.contains(k) && k != "_id"@ {
        let i = choose|i: int| 0 <= i < keys.len() && keys[i] == k;
        keys.lemma_filter_contains(pred, i);
    }
    if keys.filter(pred).contains(k) {
        keys.lemma_filter_contains_rev(pred, k);
        let j = choose|j: int| 0 <= j < keys.filter(pred).len() && keys.filter(pred)[j] == k;
        keys.lemma_filter_pred(pred, j);
    }
    keys.lemma_filter_len(pred);
}

/// The document a component's JSON text stands for, or `None` where the text
/// is not JSON or its value does not make a document.
pub open spec fn stored_document(bytes: Seq<u8>) -> Option<Document> {
    match json_value(bytes) {
        Some(v) => value_document(v),
        None => None,
    }
}

/// The message of a JSON error (its `Display` text); nothing is claimed of it.
#[verifier::external_body]
fn json_error_message(e: &serde_json::Error) -> String {
    e.to_string()
}

/// The message of a document deserialization error (its `Display` text);
/// nothing is claimed of it.
#[verifier::external_body]
fn bson_de_error_message(e: &mongodb::bson::de::Error) -> String {
    e.to_string()
}

/// The message of a document serialization error (its `Display` text);
/// nothing is claimed of it.
#[verifier::external_body]
fn bson_ser_error_message(e: &mongodb::bson::ser::Error) -> String {
    e.to_string()
}

/// The JSON text of a stored document, without its `_id` (the JSON text of
/// `without_id`). It fails only where that document has no JSON value;
/// writing the text never fails.
pub fn bson_to_json(doc: &Document) -> (r: Result<Vec<u8>, ConversionError>)
    ensures
        r is Ok <==> shown_json(*doc) is Some,
        r matches Ok(b) ==> shown_json(*doc) == Some(b@),
        r matches Ok(b) ==> exists|shown: Document|
            #![trigger document_value(shown)]
            document_keys(shown) == document_keys(*doc).filter(|k: Seq<char>| k != "_id"@)
                && document_value(shown) is Some && b@ == value_json(document_value(shown)->0),
        r matches Err(e) ==> e.step == ConversionStep::BsonToJson,
{
    let shown = without_id(doc);
    let ghost shown_doc = shown;
    let value = match document_to_value(shown) {
        Ok(v) => v,
        Err(e) => {
            return Err(ConversionError { step: ConversionStep::BsonToJson, message: bson_de_error_message(&e) });
        },
    };
    match value_to_json(&value) {
        Ok(bytes) => {
            assert(document_value(shown_doc) is Some);
            Ok(bytes)
        },
        Err(e) => Err(ConversionError { step: ConversionStep::WriteJson, message: json_error_message(&e) }),
    }
}

/// The document a component's JSON text stands for. It fails with
/// `ParseJson` where the bytes are not JSON, and with `JsonToBson` where
/// their value does not make a document.
pub fn json_to_bson(bytes: &[u8]) -> (r: Result<Document, ConversionError>)
    ensures
        match stored_document(bytes@) {
            Some(d) => r matches Ok(d2) && d2 == d,
            None => r is Err,
        },
        r matches Err(e) ==> e.step == ConversionStep::ParseJson || e.step == ConversionStep::JsonToBson,
        (r matches Err(e) && e.step == ConversionStep::ParseJson) <==> json_value(bytes@) is None,
{
    let value = match json_to_value(bytes) {
        Ok(v) => v,
        Err(e) => {
            return Err(ConversionError { step: ConversionStep::ParseJson, message: json_error_message(&e) });
        },
    };
    match value_to_document(&value) {
        Ok(doc) => Ok(doc),
        Err(e) => Err(ConversionError { step: ConversionStep::JsonToBson, message: bson_ser_error_message(&e) }),
    }
}

/// `docs[k]` is the first document of a batch that does not convert.
pub open spec fn first_failure(docs: Seq<Vec<u8>>, k: int) -> bool {
    &&& stored_document(docs[k]@) is None
    &&& forall|j: int| 0 <= j < k ==> (#[trigger] stored_document(docs[j]@)) is Some
}

/// Converts each of a batch of JSON documents, stopping at the first that
/// fails; it succeeds exactly when every one converts, and otherwise fails
/// with the error of the first document that does not.
pub fn json_batch_to_bson(docs: &Vec<Vec<u8>>) -> (r: Result<Vec<Document>, ConversionError>)
    ensures
        r is Ok <==> forall|i: int| 0 <= i < docs@.len() ==> (#[trigger] stored_document(docs@[i]@)) is Some,
        r matches Ok(out) ==> out@.len() == docs@.len() && forall|i: int|
            0 <= i < docs@.len() ==> stored_document(#[trigger] docs@[i]@) == Some(out@[i]),
        r matches Err(e) ==> e.step == ConversionStep::ParseJson || e.step == ConversionStep::JsonToBson,
        r matches Err(e) ==> exists|k: int|
            #![trigger docs@[k]]
            0 <= k < docs@.len() && first_failure(docs@, k) && (e.step == ConversionStep::ParseJson
                <==> json_value(docs@[k]@) is None),
{
    let mut out: Vec<Document> = Vec::new();
    let mut i: usize = 0;
    while i < docs.len()
        invariant
            i <= docs@.len(),
            out@.len() == i,
            forall|j: int| 0 <= j < i ==> stored_document(#[trigger] docs@[j]@) == Some(out@[j]),
        decreases docs@.len() - i,
    {
        match json_to_bson(docs[i].as_slice()) {
            Ok(d) => out.push(d),
            Err(e) => {
                assert(first_failure(docs@, i as int));
                return Err(e);
            },
        }
        i = i + 1;
    }
    Ok(out)
}

} // verus!

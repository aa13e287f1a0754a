//! JSON documents, read by `serde_json` and looked at one level at a time.
use serde_json::Value;
use vstd::prelude::*;

use crate::text::views;

verus! {

/// The value type of `serde_json`, carried through unread.
#[verifier::external_type_specification]
#[verifier::external_body]
pub struct ExValue(serde_json::Value);

/// The outermost level of a JSON document. The values inside an array or an
/// object are given as JSON text of their own.
#[derive(Clone, Debug)]
pub enum Json {
    /// A string, with its escapes resolved.
    Text(String),
    /// The elements of an array, in their order.
    Array(Vec<String>),
    /// The members of an object, in the order in which `serde_json` keeps them.
    Object(Vec<(String, String)>),
    /// Null, a boolean or a number, as JSON text.
    Scalar(String),
}

/// The model of a document's outermost level.
pub enum JsonModel {
    Text(Seq<char>),
    Array(Seq<Seq<char>>),
    Object(Seq<(Seq<char>, Seq<char>)>),
    Scalar(Seq<char>),
}

/// The views of the members of an object.
pub open spec fn member_views(v: Seq<(String, String)>) -> Seq<(Seq<char>, Seq<char>)> {
    v.map_values(|m: (String, String)| (m.0@, m.1@))
}

impl View for Json {
    type V = JsonModel;

    open spec fn view(&self) -> JsonModel {
        match *self {
            Json::Text(s) => JsonModel::Text(s@),
            Json::Array(items) => JsonModel::Array(views(items@)),
            Json::Object(members) => JsonModel::Object(member_views(members@)),
            Json::Scalar(s) => JsonModel::Scalar(s@),
        }
    }
}

/// The model of a document that may be missing.
pub open spec fn document_model(d: Option<Json>) -> Option<JsonModel> {
    match d {
        Some(j) => Some(j@),
        None => None,
    }
}

/// The outermost level of the JSON document that a text holds, as
/// `serde_json::from_str` reads it; `None` where that fails.
pub uninterp spec fn text_document(text: Seq<char>) -> Option<JsonModel>;

/// `serde_json::from_str` into a `serde_json::Value`, of which one level is
/// handed out: a value inside an array or an object comes as the JSON text
/// that its `to_string` gives. The result is named by `text_document`.
#[verifier::external_body]
pub(crate) fn parse_text(text: &str) -> (r: Option<Json>)
    ensures
        document_model(r) == text_document(text@),
{
    match serde_json::from_str(text) {
        Ok(Value::String(s)) => Some(Json::Text(s)),
        Ok(Value::Array(a)) => Some(Json::Array(a.iter().map(|v| v.to_string()).collect())),
        Ok(Value::Object(o)) => Some(
            Json::Object(o.iter().map(|(k, v)| (k.clone(), v.to_string())).collect()),
        ),
        Ok(other) => Some(Json::Scalar(other.to_string())),
        Err(_) => None,
    }
}

/// The outermost level of the JSON document that a run of bytes holds, as
/// `serde_json::from_slice` reads it; `None` where that fails.
pub uninterp spec fn bytes_document(bytes: Seq<u8>) -> Option<JsonModel>;

/// `serde_json::from_slice` into a `serde_json::Value`, of which one level is
/// handed out: a value inside an array or an object comes as the JSON text
/// that its `to_string` gives. The result is named by `bytes_document`.
#[verifier::external_body]
pub(crate) fn parse_bytes(bytes: &[u8]) -> (r: Option<Json>)
    ensures
        document_model(r) == bytes_document(bytes@),
{
    match serde_json::from_slice(bytes) {
        Ok(Value::String(s)) => Some(Json::Text(s)),
        Ok(Value::Array(a)) => Some(Json::Array(a.iter().map(|v| v.to_string()).collect())),
        Ok(Value::Object(o)) => Some(
            Json::Object(o.iter().map(|(k, v)| (k.clone(), v.to_string())).collect()),
        ),
        Ok(other) => Some(Json::Scalar(other.to_string())),
        Err(_) => None,
    }
}

} // verus!

//! The structured-data wrapper: an argument read as JSON, a return written as JSON.
use vstd::prelude::*;

use crate::convert::{StrArg, StrReturn};
use crate::error::{FFIError, JsonError};

verus! {

#[verifier::external_type_specification]
#[verifier::external_body]
pub struct ExJsonValue(serde_json::Value);

#[verifier::external_type_specification]
#[verifier::external_body]
pub struct ExJsonError(serde_json::Error);

/// The value that serde_json reads from the text `s`: `None` where it refuses the text,
/// which is not JSON or nests deeper than serde_json's limit of 128 levels.
pub uninterp spec fn json_value_of(s: Seq<char>) -> Option<serde_json::Value>;

/// The JSON bytes that serde_json writes for `v`.
pub uninterp spec fn json_text_of(v: serde_json::Value) -> Seq<u8>;

/// Relies on `serde_json::from_str` into a `serde_json::Value`: what it reads, and whether
/// it reads anything, depends on the text alone.
#[verifier::external_body]
fn value_from_str(s: &str) -> (r: Result<serde_json::Value, serde_json::Error>)
    ensures
        r is Ok <==> json_value_of(s@) is Some,
        r matches Ok(v) ==> json_value_of(s@) == Some(v),
{
    serde_json::from_str(s)
}

/// Relies on `serde_json::to_vec`, which writes a value as JSON bytes. On a `Value` it
/// does not fail: `Value`'s `Serialize` fails nowhere, its map keys are strings, and the
/// writer is a `Vec`.
#[verifier::external_body]
fn value_to_vec(v: &serde_json::Value) -> (r: Result<Vec<u8>, serde_json::Error>)
    ensures
        r is Ok,
        r matches Ok(b) ==> b@ == json_text_of(*v),
{
    serde_json::to_vec(v)
}

/// Relies on the `Display` of `serde_json::Error`, the codec's diagnostic.
#[verifier::external_body]
fn error_text(e: &serde_json::Error) -> (r: String) {
    e.to_string()
}

/// A value that crosses the interface as JSON text.
#[derive(Debug)]
pub struct Json<T>(pub T);

impl<T> From<T> for Json<T> {
    fn from(t: T) -> (r: Json<T>)
        ensures
            r == Json(t),
    {
        Json(t)
    }
}

impl<T> vstd::std_specs::convert::FromSpecImpl<T> for Json<T> {
    open spec fn obeys_from_spec() -> bool {
        true
    }

    open spec fn from_spec(v: T) -> Json<T> {
        Json(v)
    }
}

impl<T> Json<T> {
    pub fn into_inner(self) -> (r: T)
        ensures
            r == self.0,
    {
        self.0
    }
}

impl<'a> StrArg<'a> for Json<serde_json::Value> {
    open spec fn absence_tolerant() -> bool {
        false
    }

    open spec fn accepts(s: Seq<char>) -> bool {
        json_value_of(s) is Some
    }

    open spec fn parses_to(s: Seq<char>, v: Self) -> bool {
        json_value_of(s) == Some(v.0)
    }

    open spec fn is_absent_value(v: Self) -> bool {
        false
    }

    open spec fn rejects_with(s: Seq<char>, name: Seq<char>, e: FFIError) -> bool {
        e matches FFIError::JsonError(JsonError::ArgDeserialize(_))
    }

    fn absent() -> (r: Option<Self>) {
        None
    }

    fn from_arg(arg: &'a str, arg_name: &str) -> (r: Result<Self, FFIError>) {
        match value_from_str(arg) {
            Ok(v) => Ok(Json(v)),
            Err(e) => Err(FFIError::JsonError(JsonError::ArgDeserialize(error_text(&e)))),
        }
    }
}

impl StrReturn for Json<serde_json::Value> {
    open spec fn returns_as(&self, r: Result<Option<Seq<u8>>, FFIError>) -> bool {
        r == Ok::<Option<Seq<u8>>, FFIError>(Some(json_text_of(self.0)))
    }

    fn to_return(self) -> (r: Result<Option<Vec<u8>>, FFIError>) {
        match value_to_vec(&self.0) {
            Ok(b) => Ok(Some(b)),
            Err(e) => Err(FFIError::JsonError(JsonError::ReturnSerialize(error_text(&e)))),
        }
    }
}

} // verus!

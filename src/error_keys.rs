//! The tokens of the error wire text, which callers match on.
use vstd::prelude::*;

verus! {

/// Every error text starts with this.
pub const HEADER: &'static str = "@@ERR@@";

/// Failures of the call itself: decoding, arity, parsing, returning.
pub const CLASS_FFI: &'static str = "FFI";

/// Failures of the structured-data codec.
pub const CLASS_JSON: &'static str = "JSON";

/// Errors that the called function returned or raised.
pub const CLASS_FN: &'static str = "FN";

pub const FFI_TYPE_BAD_UTF8: &'static str = "BAD_UTF8";

pub const FFI_TYPE_WRONG_ARG_COUNT: &'static str = "WRONG_ARG_COUNT";

pub const FFI_TYPE_ARG_PARSE: &'static str = "ARG_PARSE";

pub const FFI_TYPE_RETURN_STR: &'static str = "RETURN_STR";

pub const JSON_TYPE_SERIALIZE: &'static str = "SERIALIZE";

pub const JSON_TYPE_DESERIALIZE: &'static str = "DESERIALIZE";

/// Stands for the length of an invalid UTF-8 sequence that the end of the text cut short.
pub const INCOMPLETE: &'static str = "incomplete";

/// Between the lower and the upper bound of an arity.
pub const RANGE_DASH: &'static str = "-";

/// After the arity in a wrong-count error, before the count supplied.
pub const EXPECTED_GOT: &'static str = " expected, got ";

/// The message of the error that stands for a called function that panicked.
pub const FN_PANICKED: &'static str = "the called function panicked";

} // verus!

//! The closed set of failures of a call, and the text that the host receives for each.
use vstd::prelude::*;
use vstd::string::StringSliceAdditionalSpecFns;
use vstd::utf8::encode_utf8;

use crate::decimal::{digits, push_digits};
use crate::error_keys::{
    CLASS_FFI, CLASS_FN, CLASS_JSON, EXPECTED_GOT, FFI_TYPE_ARG_PARSE, FFI_TYPE_BAD_UTF8,
    FFI_TYPE_RETURN_STR, FFI_TYPE_WRONG_ARG_COUNT, HEADER, INCOMPLETE, JSON_TYPE_DESERIALIZE,
    JSON_TYPE_SERIALIZE, RANGE_DASH,
};

verus! {

/// A failure of the transport: the argument vector, the arity, a conversion.
#[derive(Debug, Clone, PartialEq, Eq)]
pub enum TransportError {
    /// Argument `arg_index` is not UTF-8. Its first `valid_up_to` bytes are; the invalid
    /// sequence after them is `error_len` bytes long, or was cut short by the end (`None`).
    BadUTF8 { arg_index: usize, valid_up_to: usize, error_len: Option<usize> },
    /// The number of arguments supplied lies outside the arity of the function.
    WrongArgCount { expected_min: usize, expected_max: usize, got: usize },
    /// A present argument is not a text of its parameter's type.
    ArgParse { arg_name: String, actual_content: String },
    /// The return value could not be turned into bytes.
    ReturnStr(String),
}

/// A failure of the structured-data codec, with the codec's own diagnostic.
#[derive(Debug, Clone, PartialEq, Eq)]
pub enum JsonError {
    ArgDeserialize(String),
    ReturnSerialize(String),
}

/// Any failure of a call.
#[derive(Debug, Clone, PartialEq, Eq)]
pub enum FFIError {
    TransportError(TransportError),
    /// An error of the called function itself, by its message.
    OtherError(String),
    JsonError(JsonError),
}

impl From<TransportError> for FFIError {
    fn from(err: TransportError) -> (r: FFIError)
        ensures
            r == FFIError::TransportError(err),
    {
        FFIError::TransportError(err)
    }
}

impl vstd::std_specs::convert::FromSpecImpl<TransportError> for FFIError {
    open spec fn obeys_from_spec() -> bool {
        true
    }

    open spec fn from_spec(v: TransportError) -> FFIError {
        FFIError::TransportError(v)
    }
}

impl From<JsonError> for FFIError {
    fn from(err: JsonError) -> (r: FFIError)
        ensures
            r == FFIError::JsonError(err),
    {
        FFIError::JsonError(err)
    }
}

impl vstd::std_specs::convert::FromSpecImpl<JsonError> for FFIError {
    open spec fn obeys_from_spec() -> bool {
        true
    }

    open spec fn from_spec(v: JsonError) -> FFIError {
        FFIError::JsonError(v)
    }
}

/// The bytes of a text.
pub open spec fn utf8(s: Seq<char>) -> Seq<u8> {
    encode_utf8(s)
}

/// The field separator of the wire text.
pub open spec fn sep() -> Seq<u8> {
    seq![59u8]
}

/// The wire text of a transport failure, after the header.
pub open spec fn transport_wire(e: TransportError) -> Seq<u8> {
    utf8(CLASS_FFI@) + sep() + match e {
        TransportError::BadUTF8 { arg_index, valid_up_to, error_len } => utf8(FFI_TYPE_BAD_UTF8@)
            + sep() + digits(arg_index as nat) + sep() + digits(valid_up_to as nat) + sep()
            + match error_len {
            Some(n) => digits(n as nat),
            None => utf8(INCOMPLETE@),
        },
        TransportError::WrongArgCount { expected_min, expected_max, got } => utf8(
            FFI_TYPE_WRONG_ARG_COUNT@,
        ) + sep() + digits(expected_min as nat) + utf8(RANGE_DASH@) + digits(expected_max as nat)
            + utf8(EXPECTED_GOT@) + digits(got as nat),
        TransportError::ArgParse { arg_name, actual_content } => utf8(FFI_TYPE_ARG_PARSE@) + sep()
            + utf8(arg_name@) + sep() + utf8(actual_content@),
        TransportError::ReturnStr(m) => utf8(FFI_TYPE_RETURN_STR@) + sep() + utf8(m@),
    }
}

/// The wire text of a codec failure, after the header.
pub open spec fn json_wire(e: JsonError) -> Seq<u8> {
    utf8(CLASS_JSON@) + sep() + match e {
        JsonError::ArgDeserialize(m) => utf8(JSON_TYPE_DESERIALIZE@) + sep() + utf8(m@),
        JsonError::ReturnSerialize(m) => utf8(JSON_TYPE_SERIALIZE@) + sep() + utf8(m@),
    }
}

/// The wire text of a failure: the header, then `;`-separated class, kind and fields.
pub open spec fn wire(e: FFIError) -> Seq<u8> {
    utf8(HEADER@) + sep() + match e {
        FFIError::TransportError(t) => transport_wire(t),
        FFIError::OtherError(m) => utf8(CLASS_FN@) + sep() + utf8(m@),
        FFIError::JsonError(j) => json_wire(j),
    }
}

/// Whether `e` is the parse failure of argument `name` whose text was `content`.
pub open spec fn is_arg_parse(e: FFIError, name: Seq<char>, content: Seq<char>) -> bool {
    e matches FFIError::TransportError(TransportError::ArgParse { arg_name, actual_content })
        && arg_name@ == name && actual_content@ == content
}

/// Whether `e` is the wrong-count failure with these bounds and this count.
pub open spec fn is_wrong_count(e: FFIError, min: usize, max: usize, got: usize) -> bool {
    e == FFIError::TransportError(
        TransportError::WrongArgCount { expected_min: min, expected_max: max, got },
    )
}

/// Appends the bytes of `s` to `out`.
pub fn push_str(out: &mut Vec<u8>, s: &str)
    ensures
        final(out)@ == old(out)@ + utf8(s@),
{
    let b = s.as_bytes();
    let n = b.len();
    let mut i: usize = 0;
    while i < n
        invariant
            i <= n,
            n == b@.len(),
            b@ == utf8(s@),
            out@ == old(out)@ + b@.subrange(0, i as int),
        decreases n - i,
    {
        out.push(b[i]);
        i = i + 1;
        proof {
            assert(b@.subrange(0, i as int) =~= b@.subrange(0, i - 1).push(b@[i - 1]));
        }
    }
    proof {
        assert(b@.subrange(0, n as int) =~= b@);
    }
}

fn push_sep(out: &mut Vec<u8>)
    ensures
        final(out)@ == old(out)@ + sep(),
{
    out.push(59);
    proof {
        assert(final(out)@ =~= old(out)@ + sep());
    }
}

fn push_number(out: &mut Vec<u8>, n: usize)
    ensures
        final(out)@ == old(out)@ + digits(n as nat),
{
    push_digits(n as u128, out);
}

impl TransportError {
    /// Appends the wire text of `self`, after the header, to `out`.
    pub fn write_wire(&self, out: &mut Vec<u8>)
        ensures
            final(out)@ == old(out)@ + transport_wire(*self),
    {
        let ghost start = out@;
        push_str(out, CLASS_FFI);
        push_sep(out);
        let ghost mid = out@;
        match self {
            TransportError::BadUTF8 { arg_index, valid_up_to, error_len } => {
                push_str(out, FFI_TYPE_BAD_UTF8);
                push_sep(out);
                push_number(out, *arg_index);
                push_sep(out);
                push_number(out, *valid_up_to);
                push_sep(out);
                match error_len {
                    Some(n) => push_number(out, *n),
                    None => push_str(out, INCOMPLETE),
                }
            },
            TransportError::WrongArgCount { expected_min, expected_max, got } => {
                push_str(out, FFI_TYPE_WRONG_ARG_COUNT);
                push_sep(out);
                push_number(out, *expected_min);
                push_str(out, RANGE_DASH);
                push_number(out, *expected_max);
                push_str(out, EXPECTED_GOT);
                push_number(out, *got);
            },
            TransportError::ArgParse { arg_name, actual_content } => {
                push_str(out, FFI_TYPE_ARG_PARSE);
                push_sep(out);
                push_str(out, arg_name.as_str());
                push_sep(out);
                push_str(out, actual_content.as_str());
            },
            TransportError::ReturnStr(m) => {
                push_str(out, FFI_TYPE_RETURN_STR);
                push_sep(out);
                push_str(out, m.as_str());
            },
        }
        proof {
            assert(out@ =~= start + transport_wire(*self));
        }
    }
}

impl JsonError {
    /// Appends the wire text of `self`, after the header, to `out`.
    pub fn write_wire(&self, out: &mut Vec<u8>)
        ensures
            final(out)@ == old(out)@ + json_wire(*self),
    {
        let ghost start = out@;
        push_str(out, CLASS_JSON);
        push_sep(out);
        match self {
            JsonError::ArgDeserialize(m) => {
                push_str(out, JSON_TYPE_DESERIALIZE);
                push_sep(out);
                push_str(out, m.as_str());
            },
            JsonError::ReturnSerialize(m) => {
                push_str(out, JSON_TYPE_SERIALIZE);
                push_sep(out);
                push_str(out, m.as_str());
            },
        }
        proof {
            assert(out@ =~= start + json_wire(*self));
        }
    }
}

impl FFIError {
    /// The wire text of `self`, as the host receives it.
    pub fn to_wire(&self) -> (r: Vec<u8>)
        ensures
            r@ == wire(*self),
    {
        let mut out: Vec<u8> = Vec::new();
        push_str(&mut out, HEADER);
        push_sep(&mut out);
        match self {
            FFIError::TransportError(t) => t.write_wire(&mut out),
            FFIError::OtherError(m) => {
                push_str(&mut out, CLASS_FN);
                push_sep(&mut out);
                push_str(&mut out, m.as_str());
            },
            FFIError::JsonError(j) => j.write_wire(&mut out),
        }
        proof {
            assert(out@ =~= wire(*self));
        }
        out
    }
}

} // verus!

//! The argument vector: its count check and its decoding into UTF-8 text.
use vstd::prelude::*;
use vstd::string::StringSliceAdditionalSpecFns;
use vstd::utf8::{decode_utf8, valid_utf8};

use crate::error::{is_wrong_count, FFIError, TransportError};

verus! {

/// Whether `v` is the `valid_up_to` of `b`: the longest prefix of `b` that is UTF-8.
pub open spec fn is_valid_up_to(b: Seq<u8>, v: int) -> bool {
    &&& 0 <= v <= b.len()
    &&& valid_utf8(b.subrange(0, v))
    &&& forall|w: int| v < w <= b.len() ==> !valid_utf8(#[trigger] b.subrange(0, w))
}

/// Whether more bytes after `b` could make it UTF-8.
pub open spec fn completable(b: Seq<u8>) -> bool {
    exists|t: Seq<u8>| valid_utf8(#[trigger] (b + t))
}

/// Whether `l` is the `error_len` of `b`, whose valid prefix is `v` bytes long: `None` where
/// the input ends inside a sequence that more bytes could complete; otherwise the length of
/// the invalid sequence after the prefix, the longest start of it that more bytes could
/// complete, and at least one byte.
pub open spec fn is_error_len(b: Seq<u8>, v: int, l: Option<usize>) -> bool {
    let rest = b.subrange(v, b.len() as int);
    match l {
        None => completable(rest),
        Some(n) => {
            &&& !completable(rest)
            &&& 1 <= n <= 3
            &&& n <= rest.len()
            &&& n >= 2 ==> completable(rest.subrange(0, n as int))
            &&& forall|j: int| n < j <= rest.len() ==> !completable(#[trigger] rest.subrange(0, j))
        },
    }
}

/// Relies on `std::str::from_utf8`: `Ok` exactly where the bytes are UTF-8, as text with
/// the same bytes. On failure, `Utf8Error::valid_up_to`, the longest valid prefix, and
/// `Utf8Error::error_len`: `None` where the input ends early, else the length of the
/// invalid sequence that starts at the valid prefix's end.
#[verifier::external_body]
fn utf8_str<'a>(b: &'a [u8]) -> (r: Result<&'a str, (usize, Option<usize>)>)
    ensures
        r is Ok <==> valid_utf8(b@),
        r matches Ok(s) ==> s.spec_bytes() == b@,
        r matches Err((v, l)) ==> is_valid_up_to(b@, v as int),
        r matches Err((v, l)) ==> is_error_len(b@, v as int, l),
{
    match std::str::from_utf8(b) {
        Ok(s) => Ok(s),
        Err(e) => Err((e.valid_up_to(), e.error_len())),
    }
}

/// Every argument is UTF-8.
pub open spec fn all_utf8(argv: Seq<&[u8]>) -> bool {
    forall|i: int| 0 <= i < argv.len() ==> valid_utf8(#[trigger] argv[i]@)
}

/// `args` is the text of each argument of `argv`, in order.
pub open spec fn decoded_as(argv: Seq<&[u8]>, args: Seq<&str>) -> bool {
    &&& args.len() == argv.len()
    &&& forall|i: int| 0 <= i < argv.len() ==> #[trigger] args[i]@ == decode_utf8(argv[i]@)
}

/// `k` is the first argument of `argv` that is not UTF-8.
pub open spec fn is_first_invalid(argv: Seq<&[u8]>, k: int) -> bool {
    &&& 0 <= k < argv.len()
    &&& !valid_utf8(argv[k]@)
    &&& forall|j: int| 0 <= j < k ==> valid_utf8(#[trigger] argv[j]@)
}

/// `e` reports the first argument of `argv` that is not UTF-8, with its valid prefix and
/// the length of the invalid sequence after it.
pub open spec fn is_bad_utf8_of(argv: Seq<&[u8]>, e: FFIError) -> bool {
    e matches FFIError::TransportError(
        TransportError::BadUTF8 { arg_index, valid_up_to, error_len },
    ) && is_first_invalid(argv, arg_index as int) && is_valid_up_to(
        argv[arg_index as int]@,
        valid_up_to as int,
    ) && is_error_len(argv[arg_index as int]@, valid_up_to as int, error_len)
}

/// The outcome that decoding `argv` is owed: the texts, or the first invalid argument.
pub open spec fn decode_outcome<'a>(argv: Seq<&'a [u8]>, r: Result<Vec<&'a str>, FFIError>) -> bool {
    &&& r is Ok <==> all_utf8(argv)
    &&& r matches Ok(v) ==> decoded_as(argv, v@)
    &&& r matches Err(e) ==> is_bad_utf8_of(argv, e)
}

/// Decodes each argument as UTF-8 text. The first argument that is not UTF-8 fails the
/// whole vector with a `BadUTF8` error; no partial result is handed out.
pub fn parse_str_args<'a>(argv: &[&'a [u8]]) -> (r: Result<Vec<&'a str>, FFIError>)
    ensures
        decode_outcome(argv@, r),
{
    let n = argv.len();
    let mut out: Vec<&'a str> = Vec::new();
    let mut i: usize = 0;
    while i < n
        invariant
            i <= n,
            n == argv@.len(),
            out@.len() == i,
            forall|j: int| 0 <= j < i ==> valid_utf8(#[trigger] argv@[j]@),
            forall|j: int| 0 <= j < i ==> #[trigger] out@[j]@ == decode_utf8(argv@[j]@),
        decreases n - i,
    {
        match utf8_str(argv[i]) {
            Ok(s) => {
                proof {
                    vstd::utf8::encode_utf8_decode_utf8(s@);
                }
                out.push(s);
            },
            Err((valid_up_to, error_len)) => {
                return Err(
                    FFIError::TransportError(
                        TransportError::BadUTF8 { arg_index: i, valid_up_to, error_len },
                    ),
                );
            },
        }
        i = i + 1;
    }
    Ok(out)
}

/// The first steps of every call: where the function declares parameters, the count of
/// arguments must lie in `[expected_min, expected_max]`, and then every argument must
/// decode. A function without parameters ignores what it is handed.
pub fn begin_call<'a>(argv: &[&'a [u8]], expected_min: usize, expected_max: usize) -> (r: Result<
    Vec<&'a str>,
    FFIError,
>)
    requires
        expected_min <= expected_max,
    ensures
        expected_max == 0 ==> (r matches Ok(v) && v@.len() == 0),
        expected_max > 0 && (argv@.len() < expected_min || argv@.len() > expected_max) ==> (r matches Err(e)
            && is_wrong_count(e, expected_min, expected_max, argv@.len() as usize)),
        expected_max > 0 && expected_min <= argv@.len() <= expected_max ==> decode_outcome(argv@, r),
{
    if expected_max == 0 {
        return Ok(Vec::new());
    }
    let got = argv.len();
    if got < expected_min || got > expected_max {
        return Err(
            FFIError::TransportError(
                TransportError::WrongArgCount { expected_min, expected_max, got },
            ),
        );
    }
    parse_str_args(argv)
}

} // verus!

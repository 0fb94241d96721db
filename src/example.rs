//! Two functions exported to the host, and the call sequence that serves each: count
//! check, decoding, binding of each parameter in order, the call, the return, through
//! `call_two`.
use vstd::prelude::*;
use vstd::utf8::decode_utf8;

use crate::args::{all_utf8, is_bad_utf8_of};
use crate::call::call_two;
use crate::convert::{int_accepts, outcome_view};
use crate::decimal::{decimal_text, decimal_value, lemma_decimal_text_first};
use crate::error::{is_arg_parse, is_wrong_count, utf8, FFIError};
use crate::error_keys::{FN_PANICKED, HEADER};

verus! {

/// Adds two numbers; the host calls it as `add`.
pub fn add(left: usize, right: usize) -> (r: usize)
    requires
        left + right <= usize::MAX,
    ensures
        r == left + right,
{
    left + right
}

/// The value that an absent `right` stands for.
pub open spec fn or_zero(v: Option<usize>) -> int {
    match v {
        Some(x) => x as int,
        None => 0,
    }
}

/// Adds a number and, where the caller supplied one, a second; the host calls it as
/// `add_optional`.
pub fn add_optional(left: usize, right: Option<usize>) -> (r: usize)
    requires
        left + or_zero(right) <= usize::MAX,
    ensures
        r == left + or_zero(right),
{
    match right {
        Some(x) => left + x,
        None => left,
    }
}

/// The text of an argument.
pub open spec fn arg_text(b: &[u8]) -> Seq<char> {
    decode_utf8(b@)
}

/// Whether `s` is the text of a `usize`.
pub open spec fn usize_accepts(s: Seq<char>) -> bool {
    int_accepts(s, false, 0, usize::MAX as int)
}

/// The value of a `usize` text.
pub open spec fn usize_value(s: Seq<char>) -> int {
    match decimal_value(s, false) {
        Some(v) => v,
        None => 0,
    }
}

/// What a call that returns `a + b` as a `usize` gives: the decimal text of the sum, or
/// the error of a panicking function where the sum overflows.
pub open spec fn sum_outcome(a: int, b: int, r: Result<Option<Seq<u8>>, FFIError>) -> bool {
    if a + b <= usize::MAX {
        r == Ok::<Option<Seq<u8>>, FFIError>(Some(decimal_text(a + b)))
    } else {
        r matches Err(FFIError::OtherError(m)) && m@ == FN_PANICKED@
    }
}

/// The text of a successful call never starts as an error text does: the host tells the
/// two apart by their first byte.
pub proof fn lemma_sum_text_is_no_error(v: int)
    ensures
        decimal_text(v).len() > 0,
        decimal_text(v)[0] != utf8(HEADER@)[0],
{
    lemma_decimal_text_first(v);
    reveal_strlit("@@ERR@@");
    vstd::utf8::is_ascii_chars_encode_utf8(HEADER@);
    assert(HEADER@[0] as u8 == utf8(HEADER@)[0]);
}

/// `add` as the host calls it: an overflow, where `add` would panic, is the error that
/// stands for a panicking function.
fn checked_sum(left: usize, right: usize) -> (r: Result<usize, String>)
    ensures
        left + right <= usize::MAX ==> r == Ok::<usize, String>((left + right) as usize),
        left + right > usize::MAX ==> (r matches Err(m) && m@ == FN_PANICKED@),
{
    if left > usize::MAX - right {
        Err(FN_PANICKED.to_owned())
    } else {
        Ok(crate::example::add(left, right))
    }
}

/// `add_optional` as the host calls it, in the same way.
fn checked_optional_sum(left: usize, right: Option<usize>) -> (r: Result<usize, String>)
    ensures
        left + or_zero(right) <= usize::MAX ==> r == Ok::<usize, String>(
            (left + or_zero(right)) as usize,
        ),
        left + or_zero(right) > usize::MAX ==> (r matches Err(m) && m@ == FN_PANICKED@),
{
    let extra: usize = match right {
        Some(x) => x,
        None => 0,
    };
    if left > usize::MAX - extra {
        Err(FN_PANICKED.to_owned())
    } else {
        Ok(add_optional(left, right))
    }
}

/// Serves a host call of `add(left: usize, right: usize)`.
pub fn call_add(argv: &[&[u8]]) -> (r: Result<Option<Vec<u8>>, FFIError>)
    ensures
        argv@.len() != 2 ==> (r matches Err(e) && is_wrong_count(e, 2, 2, argv@.len() as usize)),
        argv@.len() == 2 && !all_utf8(argv@) ==> (r matches Err(e) && is_bad_utf8_of(argv@, e)),
        argv@.len() == 2 && all_utf8(argv@) ==> {
            let l = arg_text(argv@[0]);
            let rt = arg_text(argv@[1]);
            if !usize_accepts(l) {
                r matches Err(e) && is_arg_parse(e, "left"@, l)
            } else if !usize_accepts(rt) {
                r matches Err(e) && is_arg_parse(e, "right"@, rt)
            } else {
                sum_outcome(usize_value(l), usize_value(rt), outcome_view(r))
            }
        },
{
    call_two(argv, "left", "right", checked_sum)
}

/// Serves a host call of `add_optional(left: usize, right: Option<usize>)`.
pub fn call_add_optional(argv: &[&[u8]]) -> (r: Result<Option<Vec<u8>>, FFIError>)
    ensures
        argv@.len() < 1 || argv@.len() > 2 ==> (r matches Err(e) && is_wrong_count(
            e,
            1,
            2,
            argv@.len() as usize,
        )),
        1 <= argv@.len() <= 2 && !all_utf8(argv@) ==> (r matches Err(e) && is_bad_utf8_of(argv@, e)),
        1 <= argv@.len() <= 2 && all_utf8(argv@) ==> {
            let l = arg_text(argv@[0]);
            if !usize_accepts(l) {
                r matches Err(e) && is_arg_parse(e, "left"@, l)
            } else if argv@.len() == 1 {
                sum_outcome(usize_value(l), 0, outcome_view(r))
            } else if !usize_accepts(arg_text(argv@[1])) {
                r matches Err(e) && is_arg_parse(e, "right"@, arg_text(argv@[1]))
            } else {
                sum_outcome(usize_value(l), usize_value(arg_text(argv@[1])), outcome_view(r))
            }
        },
{
    call_two(argv, "left", "right", checked_optional_sum)
}

} // verus!

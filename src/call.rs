//! The call sequence of a function of two parameters, for any parameter and return types:
//! count check, decoding, binding of each parameter in order, one call, the return.
use vstd::prelude::*;
use vstd::utf8::decode_utf8;

use crate::args::{all_utf8, begin_call, is_bad_utf8_of};
use crate::convert::{outcome_view, StrArg, StrReturn};
use crate::error::{is_wrong_count, FFIError};

verus! {

/// How many of the two parameters the caller must supply.
pub open spec fn min_arity2<'a, A: StrArg<'a>, B: StrArg<'a>>() -> nat {
    (if A::absence_tolerant() {
        0nat
    } else {
        1nat
    }) + (if B::absence_tolerant() {
        0nat
    } else {
        1nat
    })
}

/// The argument at position `i`, where one was supplied, is a text of `T`.
pub open spec fn accepted_at<'a, T: StrArg<'a>>(argv: Seq<&[u8]>, i: int) -> bool {
    i >= argv.len() || T::accepts(decode_utf8(argv[i]@))
}

/// `v` is what the parameter at position `i` binds to: the value of the text supplied
/// there, or the absent value.
pub open spec fn binds_at<'a, T: StrArg<'a>>(argv: Seq<&[u8]>, i: int, v: T) -> bool {
    if i < argv.len() {
        T::parses_to(decode_utf8(argv[i]@), v)
    } else {
        T::is_absent_value(v)
    }
}

/// The text at position `i`, if the caller supplied one.
pub fn arg_at<'a>(args: &Vec<&'a str>, i: usize) -> (r: Option<&'a str>)
    ensures
        i < args@.len() ==> r == Some(args@[i as int]),
        i >= args@.len() ==> r is None,
{
    if i < args.len() {
        Some(args[i])
    } else {
        None
    }
}

/// Serves a host call of `f`, whose parameters are named `left_name` and `right_name`.
/// Where the count is in the arity, every argument is UTF-8 and every text supplied reads
/// as its parameter's type, `f` is called once, on the values bound, and its result is
/// what is returned; otherwise the first failure of the sequence is.
pub fn call_two<'a, A: StrArg<'a>, B: StrArg<'a>, R: StrReturn, F: FnOnce(A, B) -> R>(
    argv: &[&'a [u8]],
    left_name: &str,
    right_name: &str,
    f: F,
) -> (r: Result<Option<Vec<u8>>, FFIError>)
    requires
        A::absence_tolerant() ==> B::absence_tolerant(),
        forall|a: A, b: B| f.requires((a, b)),
    ensures
        argv@.len() < min_arity2::<A, B>() || argv@.len() > 2 ==> (r matches Err(e)
            && is_wrong_count(e, min_arity2::<A, B>() as usize, 2, argv@.len() as usize)),
        min_arity2::<A, B>() <= argv@.len() <= 2 && !all_utf8(argv@) ==> (r matches Err(e)
            && is_bad_utf8_of(argv@, e)),
        min_arity2::<A, B>() <= argv@.len() <= 2 && all_utf8(argv@) && !accepted_at::<A>(argv@, 0)
            ==> (r matches Err(e) && A::rejects_with(decode_utf8(argv@[0]@), left_name@, e)),
        min_arity2::<A, B>() <= argv@.len() <= 2 && all_utf8(argv@) && accepted_at::<A>(argv@, 0)
            && !accepted_at::<B>(argv@, 1) ==> (r matches Err(e) && B::rejects_with(
            decode_utf8(argv@[1]@),
            right_name@,
            e,
        )),
        min_arity2::<A, B>() <= argv@.len() <= 2 && all_utf8(argv@) && accepted_at::<A>(argv@, 0)
            && accepted_at::<B>(argv@, 1) ==> exists|a: A, b: B, out: R|
            #![trigger f.ensures((a, b), out)]
            binds_at(argv@, 0, a) && binds_at(argv@, 1, b) && f.ensures((a, b), out)
                && out.returns_as(outcome_view(r)),
{
    let left_optional = A::absent().is_some();
    let right_optional = B::absent().is_some();
    let min: usize = (if left_optional {
        0
    } else {
        1
    }) + (if right_optional {
        0
    } else {
        1
    });
    let args = match begin_call(argv, min, 2) {
        Ok(args) => args,
        Err(e) => {
            return Err(e);
        },
    };
    let n = args.len();
    let a = match A::map_arg(arg_at(&args, 0), min, 2, left_name, n) {
        Ok(v) => v,
        Err(e) => {
            return Err(e);
        },
    };
    let b = match B::map_arg(arg_at(&args, 1), min, 2, right_name, n) {
        Ok(v) => v,
        Err(e) => {
            return Err(e);
        },
    };
    let ghost ga = a;
    let ghost gb = b;
    let out = f(a, b);
    let ghost gout = out;
    let r = out.to_return();
    proof {
        assert(binds_at(argv@, 0, ga) && binds_at(argv@, 1, gb) && f.ensures((ga, gb), gout)
            && gout.returns_as(outcome_view(r)));
    }
    r
}

} // verus!

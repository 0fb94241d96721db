//! Conversion of argument texts into typed values, and of typed values into returnable bytes.
use vstd::prelude::*;
use vstd::string::StringSliceAdditionalSpecFns;

use crate::decimal::{decimal_text, decimal_value, parse_signed, parse_unsigned, signed_text, unsigned_text};
use crate::error::{is_arg_parse, is_wrong_count, push_str, utf8, FFIError, TransportError};

verus! {

/// A type that an argument text can be read as.
pub trait StrArg<'a>: Sized {
    /// Whether a parameter of this type may be left out by the caller.
    spec fn absence_tolerant() -> bool;

    /// Whether the text `s` reads as a value of this type.
    spec fn accepts(s: Seq<char>) -> bool;

    /// Whether the text `s` reads as `v`.
    spec fn parses_to(s: Seq<char>, v: Self) -> bool;

    /// Whether `v` is the value that a left-out parameter takes.
    spec fn is_absent_value(v: Self) -> bool;

    /// Whether `e` is the failure to read the text `s` of the argument named `name`.
    spec fn rejects_with(s: Seq<char>, name: Seq<char>, e: FFIError) -> bool;

    /// The value of a left-out parameter, where this type tolerates absence.
    fn absent() -> (r: Option<Self>)
        ensures
            r is Some <==> Self::absence_tolerant(),
            r matches Some(v) ==> Self::is_absent_value(v),
    ;

    /// Reads the text of a present argument.
    fn from_arg(arg: &'a str, arg_name: &str) -> (r: Result<Self, FFIError>)
        ensures
            r is Ok <==> Self::accepts(arg@),
            r matches Ok(v) ==> Self::parses_to(arg@, v),
            r matches Err(e) ==> Self::rejects_with(arg@, arg_name@, e),
    ;

    /// Binds one parameter: the text at its position, if the caller supplied one, is read;
    /// a left-out parameter takes its absent value, or fails with the arity of the function
    /// and the count `arg_num` of arguments supplied.
    fn map_arg(
        arg: Option<&'a str>,
        expected_min: usize,
        expected_max: usize,
        arg_name: &str,
        arg_num: usize,
    ) -> (r: Result<Self, FFIError>)
        ensures
            arg matches Some(s) ==> {
                &&& r is Ok <==> Self::accepts(s@)
                &&& r matches Ok(v) ==> Self::parses_to(s@, v)
                &&& r matches Err(e) ==> Self::rejects_with(s@, arg_name@, e)
            },
            arg is None && Self::absence_tolerant() ==> (r matches Ok(v) && Self::is_absent_value(
                v,
            )),
            arg is None && !Self::absence_tolerant() ==> (r matches Err(e) && is_wrong_count(
                e,
                expected_min,
                expected_max,
                arg_num,
            )),
    {
        match arg {
            Some(s) => Self::from_arg(s, arg_name),
            None => match Self::absent() {
                Some(v) => Ok(v),
                None => Err(
                    FFIError::TransportError(
                        TransportError::WrongArgCount { expected_min, expected_max, got: arg_num },
                    ),
                ),
            },
        }
    }
}

/// The parse failure of argument `name` whose text was `content`.
pub fn arg_parse_error(name: &str, content: &str) -> (e: FFIError)
    ensures
        is_arg_parse(e, name@, content@),
{
    FFIError::TransportError(
        TransportError::ArgParse { arg_name: name.to_owned(), actual_content: content.to_owned() },
    )
}

/// Whether two texts are the same.
pub fn same_text(a: &str, b: &str) -> (r: bool)
    ensures
        r == (a@ == b@),
{
    let x = a.as_bytes();
    let y = b.as_bytes();
    proof {
        vstd::utf8::encode_utf8_decode_utf8(a@);
        vstd::utf8::encode_utf8_decode_utf8(b@);
    }
    if x.len() != y.len() {
        return false;
    }
    let n = x.len();
    let mut i: usize = 0;
    while i < n
        invariant
            i <= n,
            n == x@.len(),
            n == y@.len(),
            x@ == a.spec_bytes(),
            y@ == b.spec_bytes(),
            forall|j: int| 0 <= j < i ==> x@[j] == y@[j],
        decreases n - i,
    {
        if x[i] != y[i] {
            return false;
        }
        i = i + 1;
    }
    proof {
        assert(x@ =~= y@);
    }
    true
}

/// An integer type's reading of a text: a decimal integer in its range.
pub open spec fn int_accepts(s: Seq<char>, signed: bool, min: int, max: int) -> bool {
    decimal_value(s, signed) matches Some(v) && min <= v <= max
}

impl<'a> StrArg<'a> for String {
    open spec fn absence_tolerant() -> bool {
        false
    }

    open spec fn accepts(s: Seq<char>) -> bool {
        true
    }

    open spec fn parses_to(s: Seq<char>, v: Self) -> bool {
        v@ == s
    }

    open spec fn is_absent_value(v: Self) -> bool {
        false
    }

    open spec fn rejects_with(s: Seq<char>, name: Seq<char>, e: FFIError) -> bool {
        false
    }

    fn absent() -> (r: Option<Self>) {
        None
    }

    fn from_arg(arg: &'a str, arg_name: &str) -> (r: Result<Self, FFIError>) {
        Ok(arg.to_owned())
    }
}

impl<'a> StrArg<'a> for &'a str {
    open spec fn absence_tolerant() -> bool {
        false
    }

    open spec fn accepts(s: Seq<char>) -> bool {
        true
    }

    open spec fn parses_to(s: Seq<char>, v: Self) -> bool {
        v@ == s
    }

    open spec fn is_absent_value(v: Self) -> bool {
        false
    }

    open spec fn rejects_with(s: Seq<char>, name: Seq<char>, e: FFIError) -> bool {
        false
    }

    fn absent() -> (r: Option<Self>) {
        None
    }

    fn from_arg(arg: &'a str, arg_name: &str) -> (r: Result<Self, FFIError>) {
        Ok(arg)
    }
}

impl<'a> StrArg<'a> for std::borrow::Cow<'a, str> {
    open spec fn absence_tolerant() -> bool {
        false
    }

    open spec fn accepts(s: Seq<char>) -> bool {
        true
    }

    open spec fn parses_to(s: Seq<char>, v: Self) -> bool {
        v@ == s
    }

    open spec fn is_absent_value(v: Self) -> bool {
        false
    }

    open spec fn rejects_with(s: Seq<char>, name: Seq<char>, e: FFIError) -> bool {
        false
    }

    fn absent() -> (r: Option<Self>) {
        None
    }

    fn from_arg(arg: &'a str, arg_name: &str) -> (r: Result<Self, FFIError>) {
        Ok(std::borrow::Cow::Borrowed(arg))
    }
}

#[verifier::external_type_specification]
#[verifier::external_body]
pub struct ExPathBuf(std::path::PathBuf);

#[verifier::external_type_specification]
#[verifier::external_body]
pub struct ExPath(std::path::Path);

/// The owned path that a text names.
pub uninterp spec fn path_buf_of(s: Seq<char>) -> std::path::PathBuf;

/// The borrowed path that a text names.
pub uninterp spec fn path_of(s: Seq<char>) -> &'static std::path::Path;

/// Relies on `PathBuf::from` on a `&str`: the path depends on the text alone.
#[verifier::external_body]
fn to_path_buf(s: &str) -> (r: std::path::PathBuf)
    ensures
        r == path_buf_of(s@),
{
    std::path::PathBuf::from(s)
}

impl<'a> StrArg<'a> for std::path::PathBuf {
    open spec fn absence_tolerant() -> bool {
        false
    }

    open spec fn accepts(s: Seq<char>) -> bool {
        true
    }

    open spec fn parses_to(s: Seq<char>, v: Self) -> bool {
        v == path_buf_of(s)
    }

    open spec fn is_absent_value(v: Self) -> bool {
        false
    }

    open spec fn rejects_with(s: Seq<char>, name: Seq<char>, e: FFIError) -> bool {
        false
    }

    fn absent() -> (r: Option<Self>) {
        None
    }

    fn from_arg(arg: &'a str, arg_name: &str) -> (r: Result<Self, FFIError>) {
        Ok(to_path_buf(arg))
    }
}

/// Relies on `Path::new` on a `&str`: the path depends on the text alone.
#[verifier::external_body]
fn to_path<'a>(s: &'a str) -> (r: &'a std::path::Path)
    ensures
        r == path_of(s@),
{
    std::path::Path::new(s)
}

impl<'a> StrArg<'a> for &'a std::path::Path {
    open spec fn absence_tolerant() -> bool {
        false
    }

    open spec fn accepts(s: Seq<char>) -> bool {
        true
    }

    open spec fn parses_to(s: Seq<char>, v: Self) -> bool {
        v == path_of(s)
    }

    open spec fn is_absent_value(v: Self) -> bool {
        false
    }

    open spec fn rejects_with(s: Seq<char>, name: Seq<char>, e: FFIError) -> bool {
        false
    }

    fn absent() -> (r: Option<Self>) {
        None
    }

    fn from_arg(arg: &'a str, arg_name: &str) -> (r: Result<Self, FFIError>) {
        Ok(to_path(arg))
    }
}

impl<'a> StrArg<'a> for bool {
    open spec fn absence_tolerant() -> bool {
        false
    }

    open spec fn accepts(s: Seq<char>) -> bool {
        s == "true"@ || s == "false"@
    }

    open spec fn parses_to(s: Seq<char>, v: Self) -> bool {
        (v && s == "true"@) || (!v && s == "false"@)
    }

    open spec fn is_absent_value(v: Self) -> bool {
        false
    }

    open spec fn rejects_with(s: Seq<char>, name: Seq<char>, e: FFIError) -> bool {
        is_arg_parse(e, name, s)
    }

    fn absent() -> (r: Option<Self>) {
        None
    }

    fn from_arg(arg: &'a str, arg_name: &str) -> (r: Result<Self, FFIError>) {
        if same_text(arg, "true") {
            Ok(true)
        } else if same_text(arg, "false") {
            Ok(false)
        } else {
            Err(arg_parse_error(arg_name, arg))
        }
    }
}

impl<'a> StrArg<'a> for u8 {
    open spec fn absence_tolerant() -> bool {
        false
    }

    open spec fn accepts(s: Seq<char>) -> bool {
        int_accepts(s, false, u8::MIN as int, u8::MAX as int)
    }

    open spec fn parses_to(s: Seq<char>, v: Self) -> bool {
        decimal_value(s, false) == Some(v as int)
    }

    open spec fn is_absent_value(v: Self) -> bool {
        false
    }

    open spec fn rejects_with(s: Seq<char>, name: Seq<char>, e: FFIError) -> bool {
        is_arg_parse(e, name, s)
    }

    fn absent() -> (r: Option<Self>) {
        None
    }

    fn from_arg(arg: &'a str, arg_name: &str) -> (r: Result<Self, FFIError>) {
        match parse_unsigned(arg, u8::MAX as u128) {
            Some(v) => Ok(v as u8),
            None => Err(arg_parse_error(arg_name, arg)),
        }
    }
}

impl<'a> StrArg<'a> for u16 {
    open spec fn absence_tolerant() -> bool {
        false
    }

    open spec fn accepts(s: Seq<char>) -> bool {
        int_accepts(s, false, u16::MIN as int, u16::MAX as int)
    }

    open spec fn parses_to(s: Seq<char>, v: Self) -> bool {
        decimal_value(s, false) == Some(v as int)
    }

    open spec fn is_absent_value(v: Self) -> bool {
        false
    }

    open spec fn rejects_with(s: Seq<char>, name: Seq<char>, e: FFIError) -> bool {
        is_arg_parse(e, name, s)
    }

    fn absent() -> (r: Option<Self>) {
        None
    }

    fn from_arg(arg: &'a str, arg_name: &str) -> (r: Result<Self, FFIError>) {
        match parse_unsigned(arg, u16::MAX as u128) {
            Some(v) => Ok(v as u16),
            None => Err(arg_parse_error(arg_name, arg)),
        }
    }
}

impl<'a> StrArg<'a> for u32 {
    open spec fn absence_tolerant() -> bool {
        false
    }

    open spec fn accepts(s: Seq<char>) -> bool {
        int_accepts(s, false, u32::MIN as int, u32::MAX as int)
    }

    open spec fn parses_to(s: Seq<char>, v: Self) -> bool {
        decimal_value(s, false) == Some(v as int)
    }

    open spec fn is_absent_value(v: Self) -> bool {
        false
    }

    open spec fn rejects_with(s: Seq<char>, name: Seq<char>, e: FFIError) -> bool {
        is_arg_parse(e, name, s)
    }

    fn absent() -> (r: Option<Self>) {
        None
    }

    fn from_arg(arg: &'a str, arg_name: &str) -> (r: Result<Self, FFIError>) {
        match parse_unsigned(arg, u32::MAX as u128) {
            Some(v) => Ok(v as u32),
            None => Err(arg_parse_error(arg_name, arg)),
        }
    }
}

impl<'a> StrArg<'a> for u64 {
    open spec fn absence_tolerant() -> bool {
        false
    }

    open spec fn accepts(s: Seq<char>) -> bool {
        int_accepts(s, false, u64::MIN as int, u64::MAX as int)
    }

    open spec fn parses_to(s: Seq<char>, v: Self) -> bool {
        decimal_value(s, false) == Some(v as int)
    }

    open spec fn is_absent_value(v: Self) -> bool {
        false
    }

    open spec fn rejects_with(s: Seq<char>, name: Seq<char>, e: FFIError) -> bool {
        is_arg_parse(e, name, s)
    }

    fn absent() -> (r: Option<Self>) {
        None
    }

    fn from_arg(arg: &'a str, arg_name: &str) -> (r: Result<Self, FFIError>) {
        match parse_unsigned(arg, u64::MAX as u128) {
            Some(v) => Ok(v as u64),
            None => Err(arg_parse_error(arg_name, arg)),
        }
    }
}

impl<'a> StrArg<'a> for u128 {
    open spec fn absence_tolerant() -> bool {
        false
    }

    open spec fn accepts(s: Seq<char>) -> bool {
        int_accepts(s, false, u128::MIN as int, u128::MAX as int)
    }

    open spec fn parses_to(s: Seq<char>, v: Self) -> bool {
        decimal_value(s, false) == Some(v as int)
    }

    open spec fn is_absent_value(v: Self) -> bool {
        false
    }

    open spec fn rejects_with(s: Seq<char>, name: Seq<char>, e: FFIError) -> bool {
        is_arg_parse(e, name, s)
    }

    fn absent() -> (r: Option<Self>) {
        None
    }

    fn from_arg(arg: &'a str, arg_name: &str) -> (r: Result<Self, FFIError>) {
        match parse_unsigned(arg, u128::MAX) {
            Some(v) => Ok(v),
            None => Err(arg_parse_error(arg_name, arg)),
        }
    }
}

impl<'a> StrArg<'a> for usize {
    open spec fn absence_tolerant() -> bool {
        false
    }

    open spec fn accepts(s: Seq<char>) -> bool {
        int_accepts(s, false, usize::MIN as int, usize::MAX as int)
    }

    open spec fn parses_to(s: Seq<char>, v: Self) -> bool {
        decimal_value(s, false) == Some(v as int)
    }

    open spec fn is_absent_value(v: Self) -> bool {
        false
    }

    open spec fn rejects_with(s: Seq<char>, name: Seq<char>, e: FFIError) -> bool {
        is_arg_parse(e, name, s)
    }

    fn absent() -> (r: Option<Self>) {
        None
    }

    fn from_arg(arg: &'a str, arg_name: &str) -> (r: Result<Self, FFIError>) {
        match parse_unsigned(arg, usize::MAX as u128) {
            Some(v) => Ok(v as usize),
            None => Err(arg_parse_error(arg_name, arg)),
        }
    }
}

impl<'a> StrArg<'a> for i8 {
    open spec fn absence_tolerant() -> bool {
        false
    }

    open spec fn accepts(s: Seq<char>) -> bool {
        int_accepts(s, true, i8::MIN as int, i8::MAX as int)
    }

    open spec fn parses_to(s: Seq<char>, v: Self) -> bool {
        decimal_value(s, true) == Some(v as int)
    }

    open spec fn is_absent_value(v: Self) -> bool {
        false
    }

    open spec fn rejects_with(s: Seq<char>, name: Seq<char>, e: FFIError) -> bool {
        is_arg_parse(e, name, s)
    }

    fn absent() -> (r: Option<Self>) {
        None
    }

    fn from_arg(arg: &'a str, arg_name: &str) -> (r: Result<Self, FFIError>) {
        match parse_signed(arg, i8::MIN as i128, i8::MAX as i128) {
            Some(v) => Ok(v as i8),
            None => Err(arg_parse_error(arg_name, arg)),
        }
    }
}

impl<'a> StrArg<'a> for i16 {
    open spec fn absence_tolerant() -> bool {
        false
    }

    open spec fn accepts(s: Seq<char>) -> bool {
        int_accepts(s, true, i16::MIN as int, i16::MAX as int)
    }

    open spec fn parses_to(s: Seq<char>, v: Self) -> bool {
        decimal_value(s, true) == Some(v as int)
    }

    open spec fn is_absent_value(v: Self) -> bool {
        false
    }

    open spec fn rejects_with(s: Seq<char>, name: Seq<char>, e: FFIError) -> bool {
        is_arg_parse(e, name, s)
    }

    fn absent() -> (r: Option<Self>) {
        None
    }

    fn from_arg(arg: &'a str, arg_name: &str) -> (r: Result<Self, FFIError>) {
        match parse_signed(arg, i16::MIN as i128, i16::MAX as i128) {
            Some(v) => Ok(v as i16),
            None => Err(arg_parse_error(arg_name, arg)),
        }
    }
}

impl<'a> StrArg<'a> for i32 {
    open spec fn absence_tolerant() -> bool {
        false
    }

    open spec fn accepts(s: Seq<char>) -> bool {
        int_accepts(s, true, i32::MIN as int, i32::MAX as int)
    }

    open spec fn parses_to(s: Seq<char>, v: Self) -> bool {
        decimal_value(s, true) == Some(v as int)
    }

    open spec fn is_absent_value(v: Self) -> bool {
        false
    }

    open spec fn rejects_with(s: Seq<char>, name: Seq<char>, e: FFIError) -> bool {
        is_arg_parse(e, name, s)
    }

    fn absent() -> (r: Option<Self>) {
        None
    }

    fn from_arg(arg: &'a str, arg_name: &str) -> (r: Result<Self, FFIError>) {
        match parse_signed(arg, i32::MIN as i128, i32::MAX as i128) {
            Some(v) => Ok(v as i32),
            None => Err(arg_parse_error(arg_name, arg)),
        }
    }
}

impl<'a> StrArg<'a> for i64 {
    open spec fn absence_tolerant() -> bool {
        false
    }

    open spec fn accepts(s: Seq<char>) -> bool {
        int_accepts(s, true, i64::MIN as int, i64::MAX as int)
    }

    open spec fn parses_to(s: Seq<char>, v: Self) -> bool {
        decimal_value(s, true) == Some(v as int)
    }

    open spec fn is_absent_value(v: Self) -> bool {
        false
    }

    open spec fn rejects_with(s: Seq<char>, name: Seq<char>, e: FFIError) -> bool {
        is_arg_parse(e, name, s)
    }

    fn absent() -> (r: Option<Self>) {
        None
    }

    fn from_arg(arg: &'a str, arg_name: &str) -> (r: Result<Self, FFIError>) {
        match parse_signed(arg, i64::MIN as i128, i64::MAX as i128) {
            Some(v) => Ok(v as i64),
            None => Err(arg_parse_error(arg_name, arg)),
        }
    }
}

impl<'a> StrArg<'a> for i128 {
    open spec fn absence_tolerant() -> bool {
        false
    }

    open spec fn accepts(s: Seq<char>) -> bool {
        int_accepts(s, true, i128::MIN as int, i128::MAX as int)
    }

    open spec fn parses_to(s: Seq<char>, v: Self) -> bool {
        decimal_value(s, true) == Some(v as int)
    }

    open spec fn is_absent_value(v: Self) -> bool {
        false
    }

    open spec fn rejects_with(s: Seq<char>, name: Seq<char>, e: FFIError) -> bool {
        is_arg_parse(e, name, s)
    }

    fn absent() -> (r: Option<Self>) {
        None
    }

    fn from_arg(arg: &'a str, arg_name: &str) -> (r: Result<Self, FFIError>) {
        match parse_signed(arg, i128::MIN, i128::MAX) {
            Some(v) => Ok(v),
            None => Err(arg_parse_error(arg_name, arg)),
        }
    }
}

impl<'a> StrArg<'a> for isize {
    open spec fn absence_tolerant() -> bool {
        false
    }

    open spec fn accepts(s: Seq<char>) -> bool {
        int_accepts(s, true, isize::MIN as int, isize::MAX as int)
    }

    open spec fn parses_to(s: Seq<char>, v: Self) -> bool {
        decimal_value(s, true) == Some(v as int)
    }

    open spec fn is_absent_value(v: Self) -> bool {
        false
    }

    open spec fn rejects_with(s: Seq<char>, name: Seq<char>, e: FFIError) -> bool {
        is_arg_parse(e, name, s)
    }

    fn absent() -> (r: Option<Self>) {
        None
    }

    fn from_arg(arg: &'a str, arg_name: &str) -> (r: Result<Self, FFIError>) {
        match parse_signed(arg, isize::MIN as i128, isize::MAX as i128) {
            Some(v) => Ok(v as isize),
            None => Err(arg_parse_error(arg_name, arg)),
        }
    }
}

impl<'a, T: StrArg<'a>> StrArg<'a> for Option<T> {
    open spec fn absence_tolerant() -> bool {
        true
    }

    open spec fn accepts(s: Seq<char>) -> bool {
        T::accepts(s)
    }

    open spec fn parses_to(s: Seq<char>, v: Self) -> bool {
        v matches Some(x) && T::parses_to(s, x)
    }

    open spec fn is_absent_value(v: Self) -> bool {
        v is None
    }

    open spec fn rejects_with(s: Seq<char>, name: Seq<char>, e: FFIError) -> bool {
        T::rejects_with(s, name, e)
    }

    fn absent() -> (r: Option<Self>) {
        Some(None)
    }

    fn from_arg(arg: &'a str, arg_name: &str) -> (r: Result<Self, FFIError>) {
        match T::from_arg(arg, arg_name) {
            Ok(v) => Ok(Some(v)),
            Err(e) => Err(e),
        }
    }
}


/// The outcome of returning a value, with its bytes as a sequence.
pub open spec fn outcome_view(r: Result<Option<Vec<u8>>, FFIError>) -> Result<Option<Seq<u8>>, FFIError> {
    match r {
        Ok(Some(b)) => Ok(Some(b@)),
        Ok(None) => Ok(None),
        Err(e) => Err(e),
    }
}

/// A type that a called function can return to the host.
pub trait StrReturn: Sized {
    /// Whether `r` is an outcome that returning `self` may give: the bytes to hand over
    /// (`None` for no value), or a failure.
    spec fn returns_as(&self, r: Result<Option<Seq<u8>>, FFIError>) -> bool;

    /// The bytes that stand for `self`, or the failure to produce them.
    fn to_return(self) -> (r: Result<Option<Vec<u8>>, FFIError>)
        ensures
            self.returns_as(outcome_view(r)),
    ;
}

/// A copy of the bytes of a text.
pub fn text_bytes(s: &str) -> (r: Vec<u8>)
    ensures
        r@ == utf8(s@),
{
    let mut out: Vec<u8> = Vec::new();
    push_str(&mut out, s);
    proof {
        assert(out@ =~= utf8(s@));
    }
    out
}

impl StrReturn for () {
    open spec fn returns_as(&self, r: Result<Option<Seq<u8>>, FFIError>) -> bool {
        r == Ok::<Option<Seq<u8>>, FFIError>(None)
    }

    fn to_return(self) -> (r: Result<Option<Vec<u8>>, FFIError>) {
        Ok(None)
    }
}

impl StrReturn for &'static str {
    open spec fn returns_as(&self, r: Result<Option<Seq<u8>>, FFIError>) -> bool {
        r == Ok::<Option<Seq<u8>>, FFIError>(Some(utf8(self@)))
    }

    fn to_return(self) -> (r: Result<Option<Vec<u8>>, FFIError>) {
        Ok(Some(text_bytes(self)))
    }
}

impl StrReturn for String {
    open spec fn returns_as(&self, r: Result<Option<Seq<u8>>, FFIError>) -> bool {
        r == Ok::<Option<Seq<u8>>, FFIError>(Some(utf8(self@)))
    }

    fn to_return(self) -> (r: Result<Option<Vec<u8>>, FFIError>) {
        Ok(Some(text_bytes(self.as_str())))
    }
}

impl StrReturn for Vec<u8> {
    open spec fn returns_as(&self, r: Result<Option<Seq<u8>>, FFIError>) -> bool {
        r == Ok::<Option<Seq<u8>>, FFIError>(Some(self@))
    }

    fn to_return(self) -> (r: Result<Option<Vec<u8>>, FFIError>) {
        Ok(Some(self))
    }
}

impl StrReturn for FFIError {
    open spec fn returns_as(&self, r: Result<Option<Seq<u8>>, FFIError>) -> bool {
        r == Err::<Option<Seq<u8>>, FFIError>(*self)
    }

    fn to_return(self) -> (r: Result<Option<Vec<u8>>, FFIError>) {
        Err(self)
    }
}

impl StrReturn for TransportError {
    open spec fn returns_as(&self, r: Result<Option<Seq<u8>>, FFIError>) -> bool {
        r == Err::<Option<Seq<u8>>, FFIError>(FFIError::TransportError(*self))
    }

    fn to_return(self) -> (r: Result<Option<Vec<u8>>, FFIError>) {
        Err(FFIError::TransportError(self))
    }
}

/// A function's own failure, by its message, is returned as such.
impl<T: StrReturn> StrReturn for Result<T, String> {
    open spec fn returns_as(&self, r: Result<Option<Seq<u8>>, FFIError>) -> bool {
        match self {
            Ok(v) => v.returns_as(r),
            Err(m) => r == Err::<Option<Seq<u8>>, FFIError>(FFIError::OtherError(*m)),
        }
    }

    fn to_return(self) -> (r: Result<Option<Vec<u8>>, FFIError>) {
        match self {
            Ok(v) => v.to_return(),
            Err(m) => Err(FFIError::OtherError(m)),
        }
    }
}

impl StrReturn for bool {
    open spec fn returns_as(&self, r: Result<Option<Seq<u8>>, FFIError>) -> bool {
        r == Ok::<Option<Seq<u8>>, FFIError>(
            Some(
                if *self {
                    utf8("true"@)
                } else {
                    utf8("false"@)
                },
            ),
        )
    }

    fn to_return(self) -> (r: Result<Option<Vec<u8>>, FFIError>) {
        if self {
            Ok(Some(text_bytes("true")))
        } else {
            Ok(Some(text_bytes("false")))
        }
    }
}

impl StrReturn for u8 {
    open spec fn returns_as(&self, r: Result<Option<Seq<u8>>, FFIError>) -> bool {
        r == Ok::<Option<Seq<u8>>, FFIError>(Some(decimal_text(*self as int)))
    }

    fn to_return(self) -> (r: Result<Option<Vec<u8>>, FFIError>) {
        Ok(Some(unsigned_text(self as u128)))
    }
}

impl StrReturn for u16 {
    open spec fn returns_as(&self, r: Result<Option<Seq<u8>>, FFIError>) -> bool {
        r == Ok::<Option<Seq<u8>>, FFIError>(Some(decimal_text(*self as int)))
    }

    fn to_return(self) -> (r: Result<Option<Vec<u8>>, FFIError>) {
        Ok(Some(unsigned_text(self as u128)))
    }
}

impl StrReturn for u32 {
    open spec fn returns_as(&self, r: Result<Option<Seq<u8>>, FFIError>) -> bool {
        r == Ok::<Option<Seq<u8>>, FFIError>(Some(decimal_text(*self as int)))
    }

    fn to_return(self) -> (r: Result<Option<Vec<u8>>, FFIError>) {
        Ok(Some(unsigned_text(self as u128)))
    }
}

impl StrReturn for u64 {
    open spec fn returns_as(&self, r: Result<Option<Seq<u8>>, FFIError>) -> bool {
        r == Ok::<Option<Seq<u8>>, FFIError>(Some(decimal_text(*self as int)))
    }

    fn to_return(self) -> (r: Result<Option<Vec<u8>>, FFIError>) {
        Ok(Some(unsigned_text(self as u128)))
    }
}

impl StrReturn for u128 {
    open spec fn returns_as(&self, r: Result<Option<Seq<u8>>, FFIError>) -> bool {
        r == Ok::<Option<Seq<u8>>, FFIError>(Some(decimal_text(*self as int)))
    }

    fn to_return(self) -> (r: Result<Option<Vec<u8>>, FFIError>) {
        Ok(Some(unsigned_text(self)))
    }
}

impl StrReturn for usize {
    open spec fn returns_as(&self, r: Result<Option<Seq<u8>>, FFIError>) -> bool {
        r == Ok::<Option<Seq<u8>>, FFIError>(Some(decimal_text(*self as int)))
    }

    fn to_return(self) -> (r: Result<Option<Vec<u8>>, FFIError>) {
        Ok(Some(unsigned_text(self as u128)))
    }
}

impl StrReturn for i8 {
    open spec fn returns_as(&self, r: Result<Option<Seq<u8>>, FFIError>) -> bool {
        r == Ok::<Option<Seq<u8>>, FFIError>(Some(decimal_text(*self as int)))
    }

    fn to_return(self) -> (r: Result<Option<Vec<u8>>, FFIError>) {
        Ok(Some(signed_text(self as i128)))
    }
}

impl StrReturn for i16 {
    open spec fn returns_as(&self, r: Result<Option<Seq<u8>>, FFIError>) -> bool {
        r == Ok::<Option<Seq<u8>>, FFIError>(Some(decimal_text(*self as int)))
    }

    fn to_return(self) -> (r: Result<Option<Vec<u8>>, FFIError>) {
        Ok(Some(signed_text(self as i128)))
    }
}

impl StrReturn for i32 {
    open spec fn returns_as(&self, r: Result<Option<Seq<u8>>, FFIError>) -> bool {
        r == Ok::<Option<Seq<u8>>, FFIError>(Some(decimal_text(*self as int)))
    }

    fn to_return(self) -> (r: Result<Option<Vec<u8>>, FFIError>) {
        Ok(Some(signed_text(self as i128)))
    }
}

impl StrReturn for i64 {
    open spec fn returns_as(&self, r: Result<Option<Seq<u8>>, FFIError>) -> bool {
        r == Ok::<Option<Seq<u8>>, FFIError>(Some(decimal_text(*self as int)))
    }

    fn to_return(self) -> (r: Result<Option<Vec<u8>>, FFIError>) {
        Ok(Some(signed_text(self as i128)))
    }
}

impl StrReturn for i128 {
    open spec fn returns_as(&self, r: Result<Option<Seq<u8>>, FFIError>) -> bool {
        r == Ok::<Option<Seq<u8>>, FFIError>(Some(decimal_text(*self as int)))
    }

    fn to_return(self) -> (r: Result<Option<Vec<u8>>, FFIError>) {
        Ok(Some(signed_text(self)))
    }
}

impl StrReturn for isize {
    open spec fn returns_as(&self, r: Result<Option<Seq<u8>>, FFIError>) -> bool {
        r == Ok::<Option<Seq<u8>>, FFIError>(Some(decimal_text(*self as int)))
    }

    fn to_return(self) -> (r: Result<Option<Vec<u8>>, FFIError>) {
        Ok(Some(signed_text(self as i128)))
    }
}

} // verus!

use byond_fn::args::{begin_call, parse_str_args};
use byond_fn::convert::{StrArg, StrReturn};
use byond_fn::decimal::{parse_decimal, parse_signed, parse_unsigned};
use byond_fn::error::{FFIError, JsonError, TransportError};
use byond_fn::json::Json;
use byond_fn::signature::{arity, check_optional_suffix, Param};

fn parse_err(name: &str, content: &str) -> FFIError {
    FFIError::TransportError(TransportError::ArgParse {
        arg_name: name.to_string(),
        actual_content: content.to_string(),
    })
}

#[test]
fn decodes_every_argument() {
    let r = parse_str_args(&[b"a".as_slice(), "é".as_bytes(), b"".as_slice()]);
    assert_eq!(r, Ok(vec!["a", "é", ""]));
    assert_eq!(parse_str_args(&[]), Ok(vec![]));
}

#[test]
fn first_invalid_argument_is_reported() {
    let truncated: &[u8] = &[0x61, 0xc3];
    let bad: &[u8] = &[0xff];
    let r = parse_str_args(&[b"ok".as_slice(), truncated, bad]);
    assert_eq!(
        r,
        Err(FFIError::TransportError(TransportError::BadUTF8 {
            arg_index: 1,
            valid_up_to: 1,
            error_len: None
        }))
    );
    assert_eq!(
        String::from_utf8(r.unwrap_err().to_wire()).unwrap(),
        "@@ERR@@;FFI;BAD_UTF8;1;1;incomplete"
    );
}

#[test]
fn begin_call_checks_count_then_decodes() {
    let bad: &[u8] = &[0xff];
    assert_eq!(
        begin_call(&[bad], 2, 3),
        Err(FFIError::TransportError(TransportError::WrongArgCount {
            expected_min: 2,
            expected_max: 3,
            got: 1
        }))
    );
    assert!(matches!(
        begin_call(&[b"1".as_slice(), bad], 2, 3),
        Err(FFIError::TransportError(TransportError::BadUTF8 { arg_index: 1, .. }))
    ));
    assert_eq!(begin_call(&[b"1".as_slice(), b"2".as_slice()], 2, 3), Ok(vec!["1", "2"]));
    assert_eq!(begin_call(&[b"1".as_slice()], 0, 0), Ok(vec![]));
}

#[test]
fn integers_read_as_the_standard_library_reads_them() {
    assert_eq!(<u8 as StrArg>::from_arg("255", "a"), Ok(255));
    assert_eq!(<u8 as StrArg>::from_arg("+7", "a"), Ok(7));
    assert_eq!(<u8 as StrArg>::from_arg("007", "a"), Ok(7));
    assert_eq!(<u8 as StrArg>::from_arg("256", "a"), Err(parse_err("a", "256")));
    assert_eq!(<u8 as StrArg>::from_arg("-0", "a"), Err(parse_err("a", "-0")));
    assert_eq!(<u8 as StrArg>::from_arg("", "a"), Err(parse_err("a", "")));
    assert_eq!(<u8 as StrArg>::from_arg("+", "a"), Err(parse_err("a", "+")));
    assert_eq!(<u8 as StrArg>::from_arg(" 1", "a"), Err(parse_err("a", " 1")));
    assert_eq!(<i8 as StrArg>::from_arg("-128", "a"), Ok(-128));
    assert_eq!(<i8 as StrArg>::from_arg("-129", "a"), Err(parse_err("a", "-129")));
    assert_eq!(<i8 as StrArg>::from_arg("-", "a"), Err(parse_err("a", "-")));
    assert_eq!(<i16 as StrArg>::from_arg("-32768", "a"), Ok(i16::MIN));
    assert_eq!(<i32 as StrArg>::from_arg("2147483647", "a"), Ok(i32::MAX));
    assert_eq!(<i64 as StrArg>::from_arg("-9223372036854775808", "a"), Ok(i64::MIN));
    assert_eq!(<u16 as StrArg>::from_arg("65535", "a"), Ok(u16::MAX));
    assert_eq!(<u32 as StrArg>::from_arg("4294967296", "a"), Err(parse_err("a", "4294967296")));
    assert_eq!(<u64 as StrArg>::from_arg("18446744073709551615", "a"), Ok(u64::MAX));
    assert_eq!(<usize as StrArg>::from_arg("12", "a"), Ok(12));
    assert_eq!(<isize as StrArg>::from_arg("-12", "a"), Ok(-12));
    assert_eq!(
        <u128 as StrArg>::from_arg("340282366920938463463374607431768211455", "a"),
        Ok(u128::MAX)
    );
    assert!(<u128 as StrArg>::from_arg("340282366920938463463374607431768211456", "a").is_err());
    assert_eq!(
        <i128 as StrArg>::from_arg("-170141183460469231731687303715884105728", "a"),
        Ok(i128::MIN)
    );
    assert!(<i128 as StrArg>::from_arg("170141183460469231731687303715884105728", "a").is_err());
    for text in ["0", "1", "-1", "99", "+99", "-x", "1.0", "١"] {
        assert_eq!(<i32 as StrArg>::from_arg(text, "a").ok(), text.parse::<i32>().ok());
    }
}

#[test]
fn decimal_readers() {
    assert_eq!(parse_decimal("-42", true), Some((true, 42)));
    assert_eq!(parse_decimal("-42", false), None);
    assert_eq!(parse_decimal("00000000000000000000000000000000000000000001", false), Some((false, 1)));
    assert_eq!(parse_unsigned("300", 255), None);
    assert_eq!(parse_signed("-5", -10, 10), Some(-5));
    assert_eq!(parse_signed("-11", -10, 10), None);
}

#[test]
fn booleans_and_texts() {
    assert_eq!(<bool as StrArg>::from_arg("true", "b"), Ok(true));
    assert_eq!(<bool as StrArg>::from_arg("false", "b"), Ok(false));
    assert_eq!(<bool as StrArg>::from_arg("True", "b"), Err(parse_err("b", "True")));
    assert_eq!(<String as StrArg>::from_arg("any text", "s"), Ok("any text".to_string()));
    assert_eq!(<&str as StrArg>::from_arg("x", "s"), Ok("x"));
    let cow = <std::borrow::Cow<str> as StrArg>::from_arg("borrowed", "s").unwrap();
    assert_eq!(cow, "borrowed");
    let owned = <std::path::PathBuf as StrArg>::from_arg("dir/file.txt", "p").unwrap();
    assert_eq!(owned, std::path::PathBuf::from("dir/file.txt"));
    assert_eq!(owned.file_name().unwrap(), "file.txt");
    let borrowed = <&std::path::Path as StrArg>::from_arg("a/b", "p").unwrap();
    assert_eq!(borrowed, std::path::Path::new("a/b"));
    assert_eq!(borrowed.parent().unwrap(), std::path::Path::new("a"));
}

#[test]
fn absent_parameters() {
    assert_eq!(<Option<u8> as StrArg>::map_arg(None, 1, 2, "opt", 1), Ok(None));
    assert_eq!(<Option<u8> as StrArg>::map_arg(Some("3"), 1, 2, "opt", 2), Ok(Some(3)));
    assert_eq!(
        <Option<u8> as StrArg>::map_arg(Some("z"), 1, 2, "opt", 2),
        Err(parse_err("opt", "z"))
    );
    assert_eq!(
        <u8 as StrArg>::map_arg(None, 2, 3, "req", 1),
        Err(FFIError::TransportError(TransportError::WrongArgCount {
            expected_min: 2,
            expected_max: 3,
            got: 1
        }))
    );
}

#[test]
fn returns_as_decimal_text() {
    assert_eq!(255u8.to_return(), Ok(Some(b"255".to_vec())));
    assert_eq!(0u32.to_return(), Ok(Some(b"0".to_vec())));
    assert_eq!(i128::MIN.to_return(), Ok(Some(i128::MIN.to_string().into_bytes())));
    assert_eq!(u128::MAX.to_return(), Ok(Some(u128::MAX.to_string().into_bytes())));
    assert_eq!((-7isize).to_return(), Ok(Some(b"-7".to_vec())));
    assert_eq!(true.to_return(), Ok(Some(b"true".to_vec())));
    assert_eq!("é".to_string().to_return(), Ok(Some("é".as_bytes().to_vec())));
    assert_eq!(vec![1u8, 2].to_return(), Ok(Some(vec![1u8, 2])));
}

#[test]
fn json_arguments_and_returns() {
    let v = <Json<serde_json::Value> as StrArg>::from_arg("{\"a\": [1, 2]}", "j").unwrap();
    assert_eq!(v.0["a"][1], serde_json::Value::from(2));
    assert_eq!(v.into_inner().to_string(), "{\"a\":[1,2]}");
    let e = <Json<serde_json::Value> as StrArg>::from_arg("{oops", "j").unwrap_err();
    assert!(matches!(e, FFIError::JsonError(JsonError::ArgDeserialize(_))));
    let text = String::from_utf8(e.to_wire()).unwrap();
    assert!(text.starts_with("@@ERR@@;JSON;DESERIALIZE;"));
    assert!(text.len() > "@@ERR@@;JSON;DESERIALIZE;".len());
    let out = Json(serde_json::Value::from(vec![1, 2])).to_return();
    assert_eq!(out, Ok(Some(b"[1,2]".to_vec())));
    let w: Json<u8> = Json::from(3u8);
    assert_eq!(w.into_inner(), 3);
}

#[test]
fn other_error_wire_texts() {
    let e = FFIError::from(TransportError::ReturnStr("r".to_string()));
    assert_eq!(String::from_utf8(e.to_wire()).unwrap(), "@@ERR@@;FFI;RETURN_STR;r");
    let e = FFIError::from(JsonError::ReturnSerialize("s".to_string()));
    assert_eq!(String::from_utf8(e.to_wire()).unwrap(), "@@ERR@@;JSON;SERIALIZE;s");
}

fn param(name: &str, optional: bool) -> Param {
    Param { name: name.to_string(), optional }
}

#[test]
fn arity_and_optional_suffix() {
    let ps = vec![param("a", false), param("b", false), param("c", true)];
    assert_eq!(arity(&ps), (2, 3));
    assert_eq!(check_optional_suffix(&ps), Ok(()));
    let bad = vec![param("a", true), param("b", false), param("c", true), param("d", false)];
    assert_eq!(arity(&bad), (2, 4));
    assert_eq!(check_optional_suffix(&bad), Err(1));
    assert_eq!(arity(&[]), (0, 0));
    assert_eq!(check_optional_suffix(&[]), Ok(()));
}

use byond_fn::buffer::{byond_return, encode_return, ReturnBuffer, ReturnSlot};
use byond_fn::call::call_two;
use byond_fn::json::Json;
use byond_fn::error::{FFIError, TransportError};
use byond_fn::example::{call_add, call_add_optional};

fn wire_text(r: Result<Option<Vec<u8>>, FFIError>) -> String {
    match r {
        Ok(Some(b)) => String::from_utf8(b).unwrap(),
        Ok(None) => String::new(),
        Err(e) => String::from_utf8(e.to_wire()).unwrap(),
    }
}

#[test]
fn add_two_and_two_is_four() {
    let r = call_add(&[b"2".as_slice(), b"2".as_slice()]);
    assert_eq!(r, Ok(Some(b"4".to_vec())));
}

#[test]
fn add_with_one_argument_is_wrong_count() {
    let r = call_add(&[b"2".as_slice()]);
    assert_eq!(
        r,
        Err(FFIError::TransportError(TransportError::WrongArgCount {
            expected_min: 2,
            expected_max: 2,
            got: 1
        }))
    );
    assert_eq!(wire_text(r), "@@ERR@@;FFI;WRONG_ARG_COUNT;2-2 expected, got 1");
}

#[test]
fn add_with_three_arguments_is_wrong_count() {
    let r = call_add(&[b"1".as_slice(), b"2".as_slice(), b"3".as_slice()]);
    assert_eq!(wire_text(r), "@@ERR@@;FFI;WRONG_ARG_COUNT;2-2 expected, got 3");
}

#[test]
fn add_with_bad_second_argument_names_it() {
    let r = call_add(&[b"2".as_slice(), b"x".as_slice()]);
    assert_eq!(
        r,
        Err(FFIError::TransportError(TransportError::ArgParse {
            arg_name: "right".to_string(),
            actual_content: "x".to_string()
        }))
    );
    assert_eq!(wire_text(r), "@@ERR@@;FFI;ARG_PARSE;right;x");
}

#[test]
fn add_with_bad_first_argument_stops_there() {
    let r = call_add(&[b"y".as_slice(), b"x".as_slice()]);
    assert_eq!(wire_text(r), "@@ERR@@;FFI;ARG_PARSE;left;y");
}

#[test]
fn add_with_invalid_utf8_fails_before_binding() {
    let bad: &[u8] = &[0xff, 0x41];
    let r = call_add(&[b"x".as_slice(), bad]);
    assert_eq!(
        r,
        Err(FFIError::TransportError(TransportError::BadUTF8 {
            arg_index: 1,
            valid_up_to: 0,
            error_len: Some(1)
        }))
    );
    assert_eq!(wire_text(r), "@@ERR@@;FFI;BAD_UTF8;1;0;1");
}

#[test]
fn add_overflow_is_a_function_error() {
    let max = usize::MAX.to_string();
    let r = call_add(&[max.as_bytes(), b"1".as_slice()]);
    assert_eq!(wire_text(r), "@@ERR@@;FN;the called function panicked");
}

#[test]
fn add_large_values() {
    let r = call_add(&[b"4000000000".as_slice(), b"+17".as_slice()]);
    assert_eq!(wire_text(r), "4000000017");
}

#[test]
fn add_optional_with_left_only() {
    let r = call_add_optional(&[b"5".as_slice()]);
    assert_eq!(r, Ok(Some(b"5".to_vec())));
}

#[test]
fn add_optional_with_both() {
    let r = call_add_optional(&[b"5".as_slice(), b"7".as_slice()]);
    assert_eq!(r, Ok(Some(b"12".to_vec())));
}

#[test]
fn add_optional_with_nothing_is_wrong_count() {
    let r = call_add_optional(&[]);
    assert_eq!(
        r,
        Err(FFIError::TransportError(TransportError::WrongArgCount {
            expected_min: 1,
            expected_max: 2,
            got: 0
        }))
    );
    assert_eq!(wire_text(r), "@@ERR@@;FFI;WRONG_ARG_COUNT;1-2 expected, got 0");
}

#[test]
fn add_optional_with_bad_optional_argument() {
    let r = call_add_optional(&[b"5".as_slice(), b"-1".as_slice()]);
    assert_eq!(wire_text(r), "@@ERR@@;FFI;ARG_PARSE;right;-1");
}

#[test]
fn round_trip_of_plain_bytes() {
    let mut buf = ReturnBuffer::new();
    let slot = encode_return(Ok(Some(b"abc".to_vec())), &mut buf);
    assert_eq!(slot, ReturnSlot::Buffer);
    assert_eq!(buf.as_c_bytes(), b"abc\0");
}

#[test]
fn round_trip_truncates_at_nul() {
    let mut buf = ReturnBuffer::new();
    let slot = encode_return(Ok(Some(b"ab\0cd".to_vec())), &mut buf);
    assert_eq!(slot, ReturnSlot::Buffer);
    assert_eq!(buf.as_c_bytes(), b"ab\0");
}

#[test]
fn empty_returns_leave_buffer_alone() {
    let mut buf = ReturnBuffer::new();
    assert_eq!(encode_return(Ok(Some(b"old".to_vec())), &mut buf), ReturnSlot::Buffer);
    assert_eq!(encode_return(Ok(None), &mut buf), ReturnSlot::Empty);
    assert_eq!(buf.as_c_bytes(), b"old\0");
    assert_eq!(encode_return(Ok(Some(Vec::new())), &mut buf), ReturnSlot::Empty);
    assert_eq!(encode_return(Ok(Some(b"\0x".to_vec())), &mut buf), ReturnSlot::Empty);
    assert_eq!(buf.as_c_bytes(), b"old\0");
}

#[test]
fn buffer_is_overwritten_by_shorter_text() {
    let mut buf = ReturnBuffer::new();
    assert_eq!(buf.as_c_bytes(), b"\0");
    encode_return(Ok(Some(b"longer".to_vec())), &mut buf);
    encode_return(Ok(Some(b"ab".to_vec())), &mut buf);
    assert_eq!(buf.as_c_bytes(), b"ab\0");
}

#[test]
fn error_goes_out_as_wire_text() {
    let mut buf = ReturnBuffer::new();
    let e = FFIError::OtherError("boom".to_string());
    assert_eq!(encode_return(Err(e), &mut buf), ReturnSlot::Buffer);
    assert_eq!(buf.as_c_bytes(), b"@@ERR@@;FN;boom\0");
}

#[test]
fn byond_return_of_values() {
    let mut buf = ReturnBuffer::new();
    assert_eq!(byond_return(4u8, &mut buf), ReturnSlot::Buffer);
    assert_eq!(buf.as_c_bytes(), b"4\0");
    assert_eq!(byond_return((), &mut buf), ReturnSlot::Empty);
    assert_eq!(byond_return(-12i64, &mut buf), ReturnSlot::Buffer);
    assert_eq!(buf.as_c_bytes(), b"-12\0");
    assert_eq!(byond_return("hi", &mut buf), ReturnSlot::Buffer);
    assert_eq!(buf.as_c_bytes(), b"hi\0");
    let failed: Result<u8, String> = Err("nope".to_string());
    assert_eq!(byond_return(failed, &mut buf), ReturnSlot::Buffer);
    assert_eq!(buf.as_c_bytes(), b"@@ERR@@;FN;nope\0");
    let e = TransportError::ReturnStr("bad".to_string());
    assert_eq!(byond_return(e, &mut buf), ReturnSlot::Buffer);
    assert_eq!(buf.as_c_bytes(), b"@@ERR@@;FFI;RETURN_STR;bad\0");
}

#[test]
fn call_two_binds_any_types() {
    let greet = |loud: bool, name: Option<String>| -> String {
        let name = name.unwrap_or_else(|| "world".to_string());
        if loud {
            format!("HELLO {name}")
        } else {
            format!("hello {name}")
        }
    };
    assert_eq!(
        call_two(&[b"true".as_slice()], "loud", "name", greet),
        Ok(Some(b"HELLO world".to_vec()))
    );
    assert_eq!(
        call_two(&[b"false".as_slice(), b"you".as_slice()], "loud", "name", greet),
        Ok(Some(b"hello you".to_vec()))
    );
    assert_eq!(
        call_two(&[], "loud", "name", greet),
        Err(FFIError::TransportError(TransportError::WrongArgCount {
            expected_min: 1,
            expected_max: 2,
            got: 0
        }))
    );
    assert_eq!(
        call_two(&[b"yes".as_slice()], "loud", "name", greet),
        Err(FFIError::TransportError(TransportError::ArgParse {
            arg_name: "loud".to_string(),
            actual_content: "yes".to_string()
        }))
    );
}

#[test]
fn call_two_with_json_argument() {
    let count = |v: Json<serde_json::Value>, extra: Option<u8>| -> usize {
        v.0.as_array().map_or(0, |a| a.len()) + extra.unwrap_or(0) as usize
    };
    assert_eq!(
        call_two(&[b"[1,2,3]".as_slice(), b"4".as_slice()], "v", "extra", count),
        Ok(Some(b"7".to_vec()))
    );
    let r = call_two(&[b"[1,".as_slice()], "v", "extra", count);
    assert!(matches!(r, Err(FFIError::JsonError(_))));
}

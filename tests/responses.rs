use at_modem::responses::{
    decode_app_eui, decode_error, decode_ok, decode_on_off, DecodeError, OkResponse, OnOff,
};
use std::str::FromStr;

#[test]
fn verify_ok() {
    let v = OkResponse {
        ok: heapless::String::<4>::from_str("OK").unwrap(),
    };
    assert!(v.is_ok())
}

#[test]
fn verify_on_off() {
    let k = OnOff {
        on_off: heapless::String::<6>::from_str("ON").unwrap(),
    };
    assert!(k.is_on());
    let k = OnOff {
        on_off: heapless::String::<6>::from_str("OFF").unwrap(),
    };
    assert!(k.is_off());
}

#[test]
fn decode_ok_accepts_only_ok() {
    assert!(decode_ok(b"OK").unwrap().is_ok());
    assert_eq!(decode_ok(b"ok").err(), Some(DecodeError::Malformed));
    assert_eq!(decode_ok(b"OK ").err(), Some(DecodeError::Malformed));
    assert_eq!(decode_ok(b"").err(), Some(DecodeError::Malformed));
    assert_eq!(decode_ok(b"ON").err(), Some(DecodeError::Malformed));
}

#[test]
fn decode_on_off_reads_both_states() {
    let on = decode_on_off(b"ON").unwrap();
    assert!(on.is_on());
    assert!(!on.is_off());
    let off = decode_on_off(b"OFF").unwrap();
    assert!(off.is_off());
    assert!(!off.is_on());
    assert_eq!(off.on_off.as_str(), "OFF");
}

#[test]
fn decode_on_off_rejects_other_text() {
    assert!(decode_on_off(b"OK").is_err());
    assert!(decode_on_off(b"on").is_err());
    assert!(decode_on_off(b"OFFF").is_err());
    assert!(decode_on_off(b"").is_err());
}

#[test]
fn predicates_are_false_on_other_text() {
    let v = OkResponse {
        ok: heapless::String::<4>::from_str("NO").unwrap(),
    };
    assert!(!v.is_ok());
    let k = OnOff {
        on_off: heapless::String::<6>::from_str("MAYBE").unwrap(),
    };
    assert!(!k.is_on());
    assert!(!k.is_off());
}

#[test]
fn decode_error_keeps_the_phrase() {
    let e = decode_error(b"ERROR (-3)").unwrap();
    assert_eq!(e.error.as_str(), "ERROR (-3)");
    let e = decode_error(b"12345678901234567890").unwrap();
    assert_eq!(e.error.as_str(), "12345678901234567890");
}

#[test]
fn decode_error_rejects_long_and_invalid_text() {
    assert_eq!(decode_error(b"123456789012345678901").err(), Some(DecodeError::TooLong));
    assert_eq!(decode_error(&[0xff, 0x41]).err(), Some(DecodeError::Malformed));
}

#[test]
fn decode_app_eui_reads_sixteen_digits() {
    assert_eq!(decode_app_eui(b"0123456789ABCDEF").unwrap().app_eui, 0x0123_4567_89AB_CDEF);
    assert_eq!(decode_app_eui(b"ffffffffffffffff").unwrap().app_eui, u64::MAX);
    assert_eq!(decode_app_eui(b"0000000000000000").unwrap().app_eui, 0);
    assert_eq!(decode_app_eui(b"70B3d57ED0001234").unwrap().app_eui, 0x70B3_D57E_D000_1234);
}

#[test]
fn decode_app_eui_rejects_malformed_hex() {
    assert_eq!(decode_app_eui(b"0123456789ABCDE").err(), Some(DecodeError::Malformed));
    assert_eq!(decode_app_eui(b"0123456789ABCDEF0").err(), Some(DecodeError::Malformed));
    assert_eq!(decode_app_eui(b"0123456789ABCDEG").err(), Some(DecodeError::Malformed));
    assert_eq!(decode_app_eui(b"").err(), Some(DecodeError::Malformed));
}

use crankstart::c_str::{len_to_c_uint, to_c_int, to_c_string};
use crankstart::error::{count_result, ensure_net_ok, require_entry, ArgumentError, Call, HttpError};
use crankstart::net_err::{describe_net_err, NetErr};
use crankstart::text::{render_signed, render_unsigned};

#[test]
fn known_codes_render_their_tags() {
    assert_eq!(describe_net_err(0), "NET_OK");
    assert_eq!(describe_net_err(-1), "NET_NO_DEVICE");
    assert_eq!(describe_net_err(-2), "NET_BUSY");
    assert_eq!(describe_net_err(-8), "NET_READ_TIMEOUT");
    assert_eq!(describe_net_err(-9), "NET_READ_OVERFLOW");
    assert_eq!(describe_net_err(-16), "NET_NOT_CONNECTED_TO_AP");
    assert_eq!(describe_net_err(-18), "NET_CONNECTION_CLOSED");
}

#[test]
fn unknown_codes_render_generically() {
    assert_eq!(describe_net_err(-19), "unknown code -19");
    assert_eq!(describe_net_err(-42), "unknown code -42");
    assert_eq!(describe_net_err(7), "unknown code 7");
    assert_eq!(describe_net_err(i32::MIN), "unknown code -2147483648");
    assert_eq!(describe_net_err(i32::MAX), "unknown code 2147483647");
}

#[test]
fn every_code_round_trips() {
    for code in -18..=0 {
        let e = NetErr::from_code(code).expect("known code");
        assert_eq!(e.code(), code);
        assert_eq!(describe_net_err(code), e.tag());
    }
    assert_eq!(NetErr::from_code(1), None);
    assert_eq!(NetErr::from_code(-19), None);
    assert_eq!(NetErr::from_code(-5), Some(NetErr::WriteTimeout));
}

#[test]
fn decimal_rendering() {
    assert_eq!(render_unsigned(0), "0");
    assert_eq!(render_unsigned(9), "9");
    assert_eq!(render_unsigned(10), "10");
    assert_eq!(render_unsigned(1234567890), "1234567890");
    assert_eq!(render_unsigned(u64::MAX), "18446744073709551615");
    assert_eq!(render_signed(-1), "-1");
    assert_eq!(render_signed(i64::MIN), "-9223372036854775808");
    assert_eq!(render_signed(305), "305");
}

#[test]
fn c_strings_gain_one_terminator() {
    assert_eq!(to_c_string("abc"), Ok(b"abc\0".to_vec()));
    assert_eq!(to_c_string(""), Ok(vec![0u8]));
    assert_eq!(to_c_string("é"), Ok(vec![0xc3, 0xa9, 0]));
}

#[test]
fn c_strings_refuse_embedded_terminators() {
    assert_eq!(
        to_c_string("a\0b\0"),
        Err(HttpError::Argument(ArgumentError::EmbeddedNul { position: 1 }))
    );
    assert_eq!(
        to_c_string("\0"),
        Err(HttpError::Argument(ArgumentError::EmbeddedNul { position: 0 }))
    );
}

#[test]
fn native_integers_are_checked_for_width() {
    assert_eq!(to_c_int(0), Ok(0));
    assert_eq!(to_c_int(i32::MAX as u32), Ok(i32::MAX));
    assert_eq!(
        to_c_int(i32::MAX as u32 + 1),
        Err(HttpError::Argument(ArgumentError::TooLarge { value: 2147483648 }))
    );
    assert_eq!(len_to_c_uint(17), Ok(17));
    if usize::BITS > 32 {
        let big = u32::MAX as usize + 1;
        assert_eq!(
            len_to_c_uint(big),
            Err(HttpError::Argument(ArgumentError::TooLarge { value: big as u64 }))
        );
    }
}

#[test]
fn read_of_nothing_is_zero_bytes() {
    assert_eq!(count_result(Call::Read, Some(0)), Ok(0));
    assert_eq!(count_result(Call::Read, Some(512)), Ok(512));
}

#[test]
fn read_failure_carries_its_tag() {
    let r = count_result(Call::Read, Some(-8));
    assert_eq!(r, Err(HttpError::Native { call: Call::Read, code: -8 }));
    assert_eq!(r.unwrap_err().tag(), Some("NET_READ_TIMEOUT".to_string()));
    let r = count_result(Call::Read, Some(-18));
    assert_eq!(r.unwrap_err().tag(), Some("NET_CONNECTION_CLOSED".to_string()));
    let r = count_result(Call::Read, Some(-77));
    assert_eq!(r.unwrap_err().tag(), Some("unknown code -77".to_string()));
}

#[test]
fn missing_entry_is_a_configuration_error() {
    assert_eq!(
        count_result(Call::Read, None),
        Err(HttpError::Configuration { entry: Call::Read })
    );
    assert_eq!(
        ensure_net_ok(Call::Get, None),
        Err(HttpError::Configuration { entry: Call::Get })
    );
    assert_eq!(
        require_entry::<i32>(Call::GetResponseStatus, None),
        Err(HttpError::Configuration { entry: Call::GetResponseStatus })
    );
    assert_eq!(require_entry(Call::GetResponseStatus, Some(200)), Ok(200));
}

#[test]
fn status_replies() {
    assert_eq!(ensure_net_ok(Call::Get, Some(0)), Ok(()));
    assert_eq!(
        ensure_net_ok(Call::Post, Some(-2)),
        Err(HttpError::Native { call: Call::Post, code: -2 })
    );
    assert_eq!(HttpError::ProtocolViolation { call: Call::NewConnection }.tag(), None);
}

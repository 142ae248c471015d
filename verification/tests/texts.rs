use midi_loopback::decimal::push_decimal;
use midi_loopback::errors::{ArgumentError, LoopbackError};
use midi_loopback::lua::{
    c_compatible_text, get_string_or_error, get_u8_or_error, lua_error_reply, LuaMethod,
};
use midi_loopback::status::{describe_os_status, os_status_meaning_text};

fn decimal_string(n: i64) -> String {
    let mut text = String::from("n=");
    push_decimal(&mut text, n);
    assert!(text.starts_with("n="));
    text.split_off(2)
}

#[test]
fn decimal_texts() {
    assert_eq!(decimal_string(0), "0");
    assert_eq!(decimal_string(7), "7");
    assert_eq!(decimal_string(42), "42");
    assert_eq!(decimal_string(-10830), "-10830");
    assert_eq!(decimal_string(4294967295), "4294967295");
    assert_eq!(decimal_string(i64::MIN), "-9223372036854775808");
    assert_eq!(decimal_string(i64::MAX), "9223372036854775807");
}

#[test]
fn os_status_texts() {
    assert_eq!(
        describe_os_status(-10830),
        "CoreMIDI error -10830: Invalid client (kMIDIInvalidClient)"
    );
    assert_eq!(
        describe_os_status(-10843),
        "CoreMIDI error -10843: Unique ID already taken (kMIDIIDNotUnique)"
    );
    assert_eq!(
        describe_os_status(-10844),
        "CoreMIDI error -10844: Operation not permitted (kMIDINotPermitted)"
    );
    assert_eq!(describe_os_status(0), "CoreMIDI error 0: Unknown error");
    assert_eq!(describe_os_status(-50), "CoreMIDI error -50: Unknown error");
    assert_eq!(os_status_meaning_text(-10839), "MIDI server failed to start (kMIDIServerStartErr)");
}

#[test]
fn loopback_error_texts() {
    assert_eq!(
        LoopbackError::CoreMidi(-10842).message(),
        "CoreMIDI error -10842: Object not found (kMIDIObjectNotFound)"
    );
    assert_eq!(
        LoopbackError::NoUniqueSourceId.message(),
        "Failed to generate a unique MIDI source ID after 10000 attempts \u{2014} too many MIDI endpoints registered in the system"
    );
    assert_eq!(
        LoopbackError::NoUniqueDestinationId.message(),
        "Failed to generate a unique MIDI destination ID after 10000 attempts \u{2014} too many MIDI endpoints registered in the system"
    );
    assert_eq!(
        LoopbackError::DestinationNotFound(4000000000).message(),
        "Additional destination with ID 4000000000 not found"
    );
}

#[test]
fn argument_error_texts() {
    assert_eq!(
        ArgumentError::OutOfRange { argument: 2, value: 300 }.message(),
        "Argument 2 must be an integer between 1 and 255, got 300"
    );
    assert_eq!(ArgumentError::NotAString { argument: 1 }.message(), "Argument 1 is not a string");
    assert_eq!(
        ArgumentError::InvalidUtf8 { argument: 2 }.message(),
        "Argument 2 contains invalid UTF-8"
    );
    assert_eq!(ArgumentError::InvalidUserdata.message(), "Invalid MIDILoopback userdata");
}

#[test]
fn u8_arguments() {
    assert_eq!(get_u8_or_error(2, 1), Ok(1));
    assert_eq!(get_u8_or_error(2, 255), Ok(255));
    assert_eq!(get_u8_or_error(2, 64), Ok(64));
    assert_eq!(get_u8_or_error(2, 0), Err(ArgumentError::OutOfRange { argument: 2, value: 0 }));
    assert_eq!(get_u8_or_error(2, 256), Err(ArgumentError::OutOfRange { argument: 2, value: 256 }));
    let err = get_u8_or_error(2, -5).unwrap_err();
    assert_eq!(err.message(), "Argument 2 must be an integer between 1 and 255, got -5");
}

#[test]
fn string_arguments() {
    assert_eq!(get_string_or_error(1, None), Err(ArgumentError::NotAString { argument: 1 }));
    assert_eq!(get_string_or_error(1, Some(b"track123")), Ok("track123".to_string()));
    assert_eq!(get_string_or_error(2, Some("caf\u{e9}".as_bytes())), Ok("caf\u{e9}".to_string()));
    assert_eq!(get_string_or_error(2, Some(&[])), Ok(String::new()));
    assert_eq!(
        get_string_or_error(2, Some(&[0x66, 0xff])),
        Err(ArgumentError::InvalidUtf8 { argument: 2 })
    );
    assert_eq!(
        get_string_or_error(2, Some(&[0xed, 0xa0, 0x80])),
        Err(ArgumentError::InvalidUtf8 { argument: 2 })
    );
}

#[test]
fn c_texts() {
    assert_eq!(c_compatible_text("hello", "<invalid string>"), "hello");
    assert_eq!(c_compatible_text("he\0llo", "<invalid string>"), "<invalid string>");
    assert_eq!(c_compatible_text("", "<invalid string>"), "");
}

#[test]
fn lua_error_replies() {
    let reply = lua_error_reply(2, "Argument 1 is not a string");
    assert_eq!(reply.nils, 2);
    assert_eq!(reply.values, 3);
    assert_eq!(reply.text, "Argument 1 is not a string");
    let reply = lua_error_reply(1, "bad\0text");
    assert_eq!(reply.values, 2);
    assert_eq!(reply.text, "Can't even make an error message");
}

#[test]
fn lua_method_reply_shapes() {
    assert_eq!(LuaMethod::New.error_nils(), 2);
    assert_eq!(LuaMethod::New.success_values(), 3);
    assert_eq!(LuaMethod::Rename.error_nils(), 1);
    assert_eq!(LuaMethod::Rename.success_values(), 0);
    assert_eq!(LuaMethod::GetName.success_values(), 1);
    assert_eq!(LuaMethod::GetUniqueId.success_values(), 1);
    assert_eq!(LuaMethod::GetUniqueId.error_nils(), 1);
}

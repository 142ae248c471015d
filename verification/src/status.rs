//! Texts for the status codes that CoreMIDI calls return.
use vstd::prelude::*;
use vstd::string::*;
use crate::decimal::{decimal_text, push_decimal};

verus! {

/// What a CoreMIDI status code means, as the library words it.
pub open spec fn os_status_meaning(status: i32) -> Seq<char> {
    if status == -10830 {
        "Invalid client (kMIDIInvalidClient)"@
    } else if status == -10831 {
        "Invalid port (kMIDIInvalidPort)"@
    } else if status == -10832 {
        "Wrong endpoint type (kMIDIWrongEndpointType)"@
    } else if status == -10833 {
        "No connection (kMIDINoConnection)"@
    } else if status == -10834 {
        "Unknown endpoint (kMIDIUnknownEndpoint)"@
    } else if status == -10835 {
        "Unknown property (kMIDIUnknownProperty)"@
    } else if status == -10836 {
        "Wrong property type (kMIDIWrongPropertyType)"@
    } else if status == -10837 {
        "No current MIDI setup (kMIDINoCurrentSetup)"@
    } else if status == -10838 {
        "Message send failed (kMIDIMessageSendErr)"@
    } else if status == -10839 {
        "MIDI server failed to start (kMIDIServerStartErr)"@
    } else if status == -10840 {
        "MIDI setup format error (kMIDISetupFormatErr)"@
    } else if status == -10841 {
        "Called from wrong thread (kMIDIWrongThread)"@
    } else if status == -10842 {
        "Object not found (kMIDIObjectNotFound)"@
    } else if status == -10843 {
        "Unique ID already taken (kMIDIIDNotUnique)"@
    } else if status == -10844 {
        "Operation not permitted (kMIDINotPermitted)"@
    } else {
        "Unknown error"@
    }
}

/// The message that reports a failed CoreMIDI call:
/// `CoreMIDI error <status>: <meaning>`.
pub open spec fn os_status_message(status: i32) -> Seq<char> {
    "CoreMIDI error "@ + decimal_text(status as int) + ": "@ + os_status_meaning(status)
}

/// What a CoreMIDI status code means.
pub fn os_status_meaning_text(status: i32) -> (text: &'static str)
    ensures
        text@ == os_status_meaning(status),
{
    match status {
        -10830 => "Invalid client (kMIDIInvalidClient)",
        -10831 => "Invalid port (kMIDIInvalidPort)",
        -10832 => "Wrong endpoint type (kMIDIWrongEndpointType)",
        -10833 => "No connection (kMIDINoConnection)",
        -10834 => "Unknown endpoint (kMIDIUnknownEndpoint)",
        -10835 => "Unknown property (kMIDIUnknownProperty)",
        -10836 => "Wrong property type (kMIDIWrongPropertyType)",
        -10837 => "No current MIDI setup (kMIDINoCurrentSetup)",
        -10838 => "Message send failed (kMIDIMessageSendErr)",
        -10839 => "MIDI server failed to start (kMIDIServerStartErr)",
        -10840 => "MIDI setup format error (kMIDISetupFormatErr)",
        -10841 => "Called from wrong thread (kMIDIWrongThread)",
        -10842 => "Object not found (kMIDIObjectNotFound)",
        -10843 => "Unique ID already taken (kMIDIIDNotUnique)",
        -10844 => "Operation not permitted (kMIDINotPermitted)",
        _ => "Unknown error",
    }
}

/// The message for a failed CoreMIDI call that returned `status`.
pub fn describe_os_status(status: i32) -> (message: String)
    ensures
        message@ == os_status_message(status),
{
    let mut message = String::new();
    message.append("CoreMIDI error ");
    push_decimal(&mut message, status as i64);
    message.append(": ");
    message.append(os_status_meaning_text(status));
    message
}

} // verus!

//! The library's errors and the messages that report them.
use vstd::prelude::*;
use vstd::string::*;
use crate::decimal::{decimal_text, push_decimal};
use crate::status::{describe_os_status, os_status_message};

verus! {

/// Why creating or rebuilding a loopback failed.
#[derive(Clone, Copy, Debug, PartialEq, Eq, Structural)]
pub enum LoopbackError {
    /// A CoreMIDI call returned this status.
    CoreMidi(i32),
    /// Every attempt to draw a source id not used by an endpoint failed.
    NoUniqueSourceId,
    /// Every attempt to draw a destination id not used by an endpoint failed.
    NoUniqueDestinationId,
    /// No destination endpoint carries this unique id.
    DestinationNotFound(u32),
}

/// Why an argument handed in from Lua was refused.
#[derive(Clone, Copy, Debug, PartialEq, Eq, Structural)]
pub enum ArgumentError {
    /// An integer argument lies outside `1..=255`.
    OutOfRange { argument: i32, value: i64 },
    /// The argument is not a string.
    NotAString { argument: i32 },
    /// The string argument is not valid UTF-8.
    InvalidUtf8 { argument: i32 },
    /// The receiver is not a live loopback object.
    InvalidUserdata,
}

/// The text that reports `e`.
pub open spec fn loopback_error_message(e: LoopbackError) -> Seq<char> {
    match e {
        LoopbackError::CoreMidi(status) => os_status_message(status),
        LoopbackError::NoUniqueSourceId =>
            "Failed to generate a unique MIDI source ID after 10000 attempts \u{2014} too many MIDI endpoints registered in the system"@,
        LoopbackError::NoUniqueDestinationId =>
            "Failed to generate a unique MIDI destination ID after 10000 attempts \u{2014} too many MIDI endpoints registered in the system"@,
        LoopbackError::DestinationNotFound(id) =>
            "Additional destination with ID "@ + decimal_text(id as int) + " not found"@,
    }
}

/// The text that reports `e`.
pub open spec fn argument_error_message(e: ArgumentError) -> Seq<char> {
    match e {
        ArgumentError::OutOfRange { argument, value } =>
            "Argument "@ + decimal_text(argument as int)
                + " must be an integer between 1 and 255, got "@ + decimal_text(value as int),
        ArgumentError::NotAString { argument } =>
            "Argument "@ + decimal_text(argument as int) + " is not a string"@,
        ArgumentError::InvalidUtf8 { argument } =>
            "Argument "@ + decimal_text(argument as int) + " contains invalid UTF-8"@,
        ArgumentError::InvalidUserdata => "Invalid MIDILoopback userdata"@,
    }
}

impl LoopbackError {
    /// The text that reports this error.
    pub fn message(&self) -> (text: String)
        ensures
            text@ == loopback_error_message(*self),
    {
        match self {
            LoopbackError::CoreMidi(status) => describe_os_status(*status),
            LoopbackError::NoUniqueSourceId => {
                let mut text = String::new();
                text.append(
                    "Failed to generate a unique MIDI source ID after 10000 attempts \u{2014} too many MIDI endpoints registered in the system",
                );
                text
            },
            LoopbackError::NoUniqueDestinationId => {
                let mut text = String::new();
                text.append(
                    "Failed to generate a unique MIDI destination ID after 10000 attempts \u{2014} too many MIDI endpoints registered in the system",
                );
                text
            },
            LoopbackError::DestinationNotFound(id) => {
                let mut text = String::new();
                text.append("Additional destination with ID ");
                push_decimal(&mut text, *id as i64);
                text.append(" not found");
                text
            },
        }
    }
}

impl ArgumentError {
    /// The text that reports this error.
    pub fn message(&self) -> (text: String)
        ensures
            text@ == argument_error_message(*self),
    {
        let mut text = String::new();
        match self {
            ArgumentError::OutOfRange { argument, value } => {
                text.append("Argument ");
                push_decimal(&mut text, *argument as i64);
                text.append(" must be an integer between 1 and 255, got ");
                push_decimal(&mut text, *value);
            },
            ArgumentError::NotAString { argument } => {
                text.append("Argument ");
                push_decimal(&mut text, *argument as i64);
                text.append(" is not a string");
            },
            ArgumentError::InvalidUtf8 { argument } => {
                text.append("Argument ");
                push_decimal(&mut text, *argument as i64);
                text.append(" contains invalid UTF-8");
            },
            ArgumentError::InvalidUserdata => {
                text.append("Invalid MIDILoopback userdata");
            },
        }
        text
    }
}

} // verus!

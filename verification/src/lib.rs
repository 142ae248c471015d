//! A virtual MIDI loopback: the decisions, texts and checks of a Lua module that
//! publishes a CoreMIDI virtual destination which echoes everything it receives
//! through a virtual source.
#![allow(non_camel_case_types)]

pub mod decimal;
pub mod status;
pub mod errors;
pub mod endpoints;
pub mod loopback;
pub mod laws;
pub mod lua;

[package]
name = "midi_loopback"
version = "0.1.0"
edition = "2021"
publish = false

[dependencies]
coremidi = "=0.9.2"
rand = "=0.8.8"

[package]
name = "rkiwi"
version = "0.1.0"
edition = "2021"
publish = false

[dependencies]
either = "1"
parking_lot = "0.12"
tracing = "0.1"
widestring = "1"

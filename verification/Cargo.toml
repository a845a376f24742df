[package]
name = "uds-io"
version = "0.1.0"
edition = "2021"
publish = false

[dependencies]
async-channel = "2"
async-io = "2"
embedded-hal = "1.0"
embedded-hal-async = "1.0"
futures-lite = "2"
tracing = "0.1"

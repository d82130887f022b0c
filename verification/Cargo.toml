[package]
name = "marty_core"
version = "0.1.0"
edition = "2021"
publish = false

[dependencies]
anyhow = "1"
log = "0.4"
ringbuf = "0.2"

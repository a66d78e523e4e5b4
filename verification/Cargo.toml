[package]
name = "wait_timer"
version = "0.1.0"
edition = "2021"
publish = false

[dependencies]
rp2040-hal = { version = "0.9", default-features = false }

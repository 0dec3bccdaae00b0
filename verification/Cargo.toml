[package]
name = "pollcore"
version = "0.1.0"
edition = "2021"
publish = false

[dependencies]
mio = { version = "*", default-features = false, features = ["net", "os-poll"] }
dummy-waker = "*"

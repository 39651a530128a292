[package]
name = "governor_error"
version = "0.1.0"
edition = "2021"
publish = false

[dependencies]
http = "1"
thiserror = "*"
tonic = { version = "*", default-features = false }

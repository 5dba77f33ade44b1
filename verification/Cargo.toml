[package]
name = "transfer-progress"
version = "0.1.0"
edition = "2021"
publish = false

[dependencies]
bytesize = "1"
progress-streams = "1.1"

[package]
name = "sys_voice"
version = "0.1.0"
edition = "2021"
publish = false

[dependencies]
flume = "0.11"
tokio = { version = "1", features = ["rt", "macros"] }
objc2-audio-toolbox = "0.3.2"
objc2-core-audio = "0.3.2"
objc2-core-audio-types = "0.3.2"
objc2-core-foundation = "0.3.2"

[package]
name = "blank_rs"
version = "0.1.0"
edition = "2021"
publish = false

[dependencies]
clap = { version = "4", features = ["derive"] }
color-eyre = "0.6"
lazy_static = "1"
tracing = "0.1"
tracing-subscriber = "0.3"

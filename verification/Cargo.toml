[package]
name = "mls_streams"
version = "0.1.0"
edition = "2021"
publish = false

[dependencies]
async-stream = "0.3"
diesel = { version = "2.2", default-features = false }
futures = "0.3"
hex = "0.4"
prost = "0.13"
thiserror = "1"
tokio = { version = "1", features = ["sync", "rt", "macros"] }
tokio-stream = { version = "0.1", features = ["sync"] }
tracing = "0.1"

[package]
name = "recognizer_core"
version = "0.1.0"
edition = "2021"
publish = false

[dependencies]
async-stream = "*"
futures-core = "*"
gouth = "*"
log = "*"
prost = "*"
serde_json = "*"
tokio = { version = "*", features = ["rt-multi-thread", "sync", "macros", "time"] }
tokio-stream = "*"
tonic = "*"

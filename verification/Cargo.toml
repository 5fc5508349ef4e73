[package]
name = "key_value_service"
version = "0.1.0"
edition = "2021"
publish = false

[dependencies]
dashmap = "=6.2.1"
serde_json = "=1.0.151"
tokio = { version = "=1.53.2", features = ["rt-multi-thread", "macros"] }
tonic = "=0.14.6"
warp = { version = "=0.4.3", features = ["server"] }
clap = { version = "=4.6.7", features = ["derive"] }

[package]
name = "verification_relay"
version = "0.1.0"
edition = "2021"
publish = false

[dependencies]
serde_json = "1"
redis = "0.24"
reqwest = "0.11"
tokio = { version = "1", features = ["macros", "rt-multi-thread"] }
async-std = "1"
futures = "0.3"
envconfig = "0.10"
log = "0.4"
simple_logger = "4"

[package]
name = "substreams_bridge"
version = "0.1.0"
edition = "2021"
publish = false

[dependencies]
anyhow = "1"
futures = "0.3"
lazy_static = "1"
prost = "0.13"
regex = "1"
reqwest = { version = "0.12", features = ["json"] }
semver = "1"
serde_json = "1"
tokio = { version = "1", features = ["rt-multi-thread"] }

[package]
name = "rfs_tester"
version = "0.1.0"
edition = "2021"
publish = false

[dependencies]
futures = "0.3"
proc-macro2 = "1"
quote = "1"
rand = "0.9"
serde = { version = "1", features = ["derive"] }
serde_json = "1"
serde_yaml = "0.9"
syn = { version = "2", features = ["full"] }
tokio = { version = "1", features = ["fs", "io-util", "rt-multi-thread", "sync"] }
walkdir = "2"

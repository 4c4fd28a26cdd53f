[package]
name = "kinesis_tail"
version = "0.1.0"
edition = "2021"
publish = false

[dependencies]
serde_json = { version = "=1.0.151", features = ["float_roundtrip"] }
anyhow = "1"
tokio = { version = "1", features = ["macros", "rt-multi-thread"] }
rusoto_core = { version = "=0.48.0", default-features = false, features = ["rustls"] }
rusoto_credential = "=0.48.0"
rusoto_kinesis = { version = "=0.48.0", default-features = false, features = ["rustls"] }

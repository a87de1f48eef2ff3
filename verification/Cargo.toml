[package]
name = "topic_pipeline"
version = "0.1.0"
edition = "2021"
publish = false

[dependencies]
avro-rs = "=0.13.0"
rdkafka = "=0.39.0"
reqwest = { version = "=0.13.5", default-features = false, features = ["json"] }
serde = "=1.0.229"
serde_derive = "=1.0.229"
serde_json = "=1.0.154"
serde_yaml = "0.9.34"
tokio = { version = "=1.54.1", features = ["macros", "rt-multi-thread"] }
walkdir = "=2.5.0"

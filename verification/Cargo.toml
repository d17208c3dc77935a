[package]
name = "datafile_test"
version = "0.1.0"
edition = "2021"
publish = false

[dependencies]
serde_json = "1"
serde_yaml = "0.9"
syn = { version = "2", features = ["full"] }
quote = "1"

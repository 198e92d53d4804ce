[package]
name = "hive_persistence"
version = "0.1.0"
edition = "2021"
publish = false

[dependencies]
base64 = "0.22"
chrono = "0.4"
serde_json = "1"
uuid = "1"

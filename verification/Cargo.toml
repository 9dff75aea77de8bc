[package]
name = "corplink"
version = "0.1.0"
edition = "2021"
publish = false

[dependencies]
log = "0.4"
md5 = "0.7"
serde = { version = "1", features = ["derive"] }
serde_json = "1"
serde_with = "3"
tokio = { version = "1", features = ["fs"] }

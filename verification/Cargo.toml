[package]
name = "firebaseremoteconfig1"
version = "0.1.0"
edition = "2021"
publish = false

[dependencies]
google-apis-common = { version = "*", default-features = false }
url = "2"
hyper = "1"
mime = "0.3"
serde = { version = "1", features = ["derive"] }
serde_json = "1"
tokio = { version = "1", features = ["time"] }

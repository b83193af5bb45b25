[package]
name = "cloudtray"
version = "0.1.0"
edition = "2021"
publish = false

[dependencies]
serde_json = "=1.0.151"
chrono = "=0.4.45"
reqwest = { version = "=0.13.5", default-features = false, features = ["form", "query"] }
tokio = { version = "=1.53.2", default-features = false, features = ["rt", "macros", "fs"] }

[package]
name = "full_dataset_cache"
version = "0.1.0"
edition = "2021"
publish = false

[dependencies]
base64 = "0.13"
chrono = "0.4"
httpdate = "1"
reqwest = { version = "0.12", default-features = false, features = ["blocking"] }
scheduled-thread-pool = "*"
serde_json = "1"
tokio = { version = "1", default-features = false, features = ["rt", "time"] }
async-trait = "0.1"

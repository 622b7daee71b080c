[package]
name = "reqwest_json_service"
version = "0.1.0"
edition = "2021"
publish = false

[dependencies]
log = "0.4"
reqwest = { version = "0.12", default-features = false, features = ["blocking"] }
serde = "1"
serde_json = "1"
url = "2"

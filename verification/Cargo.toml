[package]
name = "fta_client"
version = "0.1.0"
edition = "2021"
publish = false

[dependencies]
chrono = "0.4"
serde_json = "1"
reqwest = { version = "0.11", default-features = false, features = ["blocking", "json", "multipart"] }
native-dialog = "0.7"
dotenv = "0.15"
iced = { version = "0.12", default-features = false }

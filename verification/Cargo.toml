[package]
name = "telegraph_api_rs"
version = "0.1.0"
edition = "2021"
publish = false

[dependencies]
mime_guess = "2"
reqwest = { version = "*", default-features = false, features = ["blocking", "multipart"] }

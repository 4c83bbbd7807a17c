[package]
name = "dl_translate"
version = "0.1.0"
edition = "2021"
publish = false

[dependencies]
toml = "*"
serde_json = "*"
dirs = "*"
atty = "*"
reqwest = { version = "*", default-features = false, features = ["blocking", "multipart"] }

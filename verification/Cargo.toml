[package]
name = "castform"
version = "0.1.0"
edition = "2021"
publish = false

[dependencies]
serde_json = "*"
serde_urlencoded = "*"
serde = { version = "*", features = ["derive"] }
toml = "*"
clap = "*"
ureq = "*"

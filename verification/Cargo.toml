[package]
name = "rustelebot"
version = "0.1.0"
edition = "2021"
publish = false

[dependencies]
isahc = { version = "1", features = ["json"] }
serde = { version = "1", features = ["derive"] }
serde_json = "1"
url = "2"

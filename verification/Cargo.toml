[package]
name = "woosh_viewer"
version = "0.2.1"
edition = "2021"
publish = false

[dependencies]
mimalloc = "=0.1.52"
ndarray = "=0.17.2"
serde = { version = "1", features = ["derive"] }
serde_json = "=1.0.154"
toml = { version = "=1.1.8", features = ["preserve_order"] }
tungstenite = "=0.30.0"
ureq = { version = "=3.5.1", features = ["json"] }

[package]
name = "muse"
version = "0.1.0"
edition = "2021"
publish = false

[dependencies]
serde_json = "1"
serde = { version = "1", features = ["derive"] }
toml = "0.9"
tokio = { version = "1", features = ["full"] }
reqwest = { version = "0.12", default-features = false, features = ["rustls-tls"] }
mpris = "2"
ratatui = "*"
crossterm = "*"
color-eyre = "*"
expanduser = "*"
image = { version = "0.25", default-features = false, features = ["png", "jpeg"] }
fastrand = "2"

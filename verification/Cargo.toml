[package]
name = "doum_cli"
version = "0.3.0"
edition = "2021"
publish = false

[dependencies]
anyhow = "=1.0.104"
clap = { version = "=4.6.7", features = ["derive"] }
keyring = { version = "=3.6.3", default-features = false, features = ["linux-native"] }
reqwest = { version = "=0.12.28", default-features = false, features = ["blocking", "rustls-tls"] }
serde = { version = "=1.0.229", features = ["derive"] }
serde_json = "*"
sysinfo = "=0.39.6"
toml = "=1.1.6"

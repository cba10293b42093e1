[package]
name = "lsforms"
version = "0.1.0"
edition = "2021"
publish = false

[dependencies]
actix-files = "0.6"
actix-web = "4"
altcha-lib-rs = { version = "*", features = ["json"] }
base64 = "0.22"
chrono = "0.4"
lettre = { version = "0.11", features = ["tokio1", "tokio1-native-tls"] }
once_cell = "1"
rand = "0.8"
regex = "1"
serde = { version = "1", features = ["derive"] }
serde_json = "1"
toml = "0.8"

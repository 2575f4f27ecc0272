[package]
name = "datenbriefd"
version = "0.1.0"
edition = "2021"
publish = false

[dependencies]
chrono = "0.4"
clap = "2"
env_logger = "0.7"
lettre = "0.9"
lettre_email = "0.9"
log = "0.4"
native-tls = "0.2"
serde_json = "1"
toml = "0.5"
uuid = { version = "0.8", features = ["v4"] }

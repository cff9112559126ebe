[package]
name = "spectacles"
version = "0.1.0"
edition = "2021"
publish = false

[dependencies]
regex = "1"
chrono = "0.4"
serde = { version = "1", features = ["derive"] }
serde_json = "1"
serde_repr = "0.1"
toml = "*"
clap = "4"
tokio = { version = "1", features = ["full"] }
futures = "0.3"
hyper = { version = "0.14", features = ["full"] }
hyper-reverse-proxy = "*"
reqwest = { version = "*", default-features = false, features = ["json", "native-tls"] }
redis = { version = "*", features = ["tokio-comp"] }
lapin = "*"
tokio-tungstenite = { version = "*", features = ["native-tls"] }
native-tls = "0.2"
url = "2"
log = "0.4"
pretty_env_logger = "*"
kankyo = "*"

[package]
name = "cask"
version = "0.1.0"
edition = "2021"
publish = false

[dependencies]
chrono = { version = "=0.4.45", default-features = false, features = ["std"] }
dirs = "=4.0.0"
eyre = "=0.6.14"
flate2 = "=1.1.10"
futures-util = "=0.3.34"
indicatif = "0.17"
reqwest = { version = "=0.11.27", default-features = false, features = ["stream", "rustls-tls"] }
serde_json = "=1.0.154"
sha2 = "=0.10.9"
tar = "=0.4.46"
tinytemplate = "=1.2.1"
toml = "=0.5.11"
url = "=2.5.8"
zip = { version = "=0.6.6", default-features = false, features = ["deflate"] }

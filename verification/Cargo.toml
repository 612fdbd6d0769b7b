[package]
name = "postmaster"
version = "0.1.0"
edition = "2021"
publish = false

[dependencies]
url = "2"
deflate = { version = "1", features = ["gzip"] }
reqwest = { version = "0.11", default-features = false, features = ["rustls-tls", "stream", "json", "socks"] }
tokio = { version = "1", features = ["rt", "macros", "time", "sync"] }
futures = "0.3"
bytes = "1"
serde = { version = "1", features = ["derive"] }
serde_json = "1"
log = "0.4"
env_logger = "0.10"
http = "0.2"
lettre = { version = "0.10", default-features = false, features = ["builder", "smtp-transport", "tokio1-rustls-tls"] }
web-push = "0.9"
multibase = "0.9"

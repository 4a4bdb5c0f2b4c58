[package]
name = "cryptify"
version = "0.1.0"
edition = "2021"
publish = false

[dependencies]
sha2 = "=0.10.9"
uuid = { version = "=1.29.0", features = ["v4"] }
rand = "=0.8.8"
chrono = { version = "=0.4.45", features = ["unstable-locales"] }
lettre = "=0.11.23"
url = "=2.5.8"
serde = { version = "=1.0.229", features = ["derive"] }
serde_json = "=1.0.154"
log = "=0.4.34"
askama = "=0.12.1"
rocket = { version = "=0.5.2", features = ["json"] }
rocket_cors = "=0.6.0"
minreq = { version = "=2.14.1", features = ["json-using-serde"] }
tokio-util = { version = "=0.7.20", features = ["compat"] }
pg-core = { version = "=0.6.10", features = ["stream"] }

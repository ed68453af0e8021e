[package]
name = "bitcharge"
version = "0.1.0"
edition = "2021"
publish = false

[dependencies]
askama = "0.12"
base64 = "0.22"
bigdecimal = "0.4"
futures = "0.3"
gotham = "0.7"
gotham_derive = "0.7"
harsh = "0.2"
hmac = "0.12"
hyper = { version = "0.14", features = ["client", "http1", "tcp"] }
hyper-tls = "0.5"
log = "0.4"
mime = "0.3"
pretty_env_logger = "0.5"
qrcode = { version = "0.14", default-features = false, features = ["svg"] }
serde = { version = "1", features = ["derive"] }
serde_json = { version = "1", features = ["arbitrary_precision"] }
sha2 = "0.10"
tokio = { version = "1", features = ["rt", "time"] }
toml = "0.8"
url = "2"

[package]
name = "nanokvm"
version = "0.1.0"
edition = "2021"
publish = false

[dependencies]
aes = "=0.8.4"
axum = { version = "=0.8.9", features = ["ws", "multipart"] }
base64 = "=0.22.1"
bcrypt = "=0.15.1"
cbc = "=0.1.2"
cipher = "=0.4.4"
flate2 = "1"
futures = "=0.3.34"
md5 = "=0.7.0"
memchr = "=2.8.3"
qrcode = { version = "=0.14.1", default-features = false, features = ["svg"] }
rand = "=0.8.8"
regex = "=1.13.1"
ring = "=0.17.14"
serde = { version = "=1.0.229", features = ["derive"] }
serde_json = "=1.0.154"
serde_yaml = "=0.9.34"
sha2 = "=0.10.9"
subtle = "=2.6.1"
tar = "0.4"
tokio = { version = "=1.54.1", features = ["full"] }
tracing = "=0.1.44"
tracing-subscriber = "=0.3.23"
url = "=2.5.8"
urlencoding = "=2.1.3"
uuid = { version = "=1.29.0", features = ["v4"] }

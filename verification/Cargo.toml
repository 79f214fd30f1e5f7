[package]
name = "stremio_core"
version = "0.1.0"
edition = "2021"
publish = false

[dependencies]
base64 = "0.21"
flate2 = "1"
hex = "0.4"
http = "0.2"
lz-str = "0.2"
magnet-url = "2"
percent-encoding = "2"
serde = { version = "1", features = ["derive"] }
serde_json = "1"
url = { version = "2", features = ["serde"] }

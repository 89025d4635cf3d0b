[package]
name = "lyricvault"
version = "0.1.0"
edition = "2021"
publish = false

[dependencies]
base64 = "*"
chrono = { version = "*", default-features = false, features = ["clock"] }
md5 = "*"
rusqlite = { version = "*", features = ["bundled"] }
serde_json = "*"
tokio = { version = "*", default-features = false, features = ["sync"] }
url = "*"
urlencoding = "*"

[package]
name = "adui_tools"
version = "0.1.0"
edition = "2021"
publish = false

[dependencies]
aes-gcm = "0.10"
base64 = "0.22"
chrono = "0.4"
keyring = "3"
log = "0.4"
r2d2 = "0.8"
r2d2_sqlite = "*"
rand = "0.8"
reqwest = { version = "0.12", features = ["json", "multipart", "socks"] }
rusqlite = "*"
serde = { version = "1", features = ["derive"] }
serde_json = "1"
thiserror = "1"
tokio = { version = "1", features = ["sync"] }
urlencoding = "2"
uuid = { version = "1", features = ["v4"] }

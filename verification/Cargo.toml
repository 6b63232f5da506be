[package]
name = "securefox"
version = "0.1.0"
edition = "2021"
publish = false

[dependencies]
aes-gcm-siv = "=0.11.1"
argon2 = "=0.5.3"
pbkdf2 = "=0.12.2"
sha2 = "=0.10.9"
base64 = "=0.21.7"
rand = "=0.8.8"
base32 = "=0.4.0"
totp-rs = { version = "=5.7.2", features = ["otpauth"] }
url = "=2.5.8"
uuid = { version = "=1.29.0", features = ["v4"] }
chrono = { version = "=0.4.45", features = ["serde"] }
serde = { version = "=1.0.229", features = ["derive"] }
serde_json = "=1.0.154"
zeroize = "=1.9.1"
passwords = "=3.1.19"
git2 = { version = "=0.18.3", default-features = false }
axum = "=0.7.9"
tokio = { version = "=1.54.1", features = ["rt-multi-thread", "macros", "net", "time", "sync"] }
parking_lot = "=0.12.5"
dirs = "=5.0.1"
clap = { version = "=4.6.7", features = ["derive"] }
keyring = { version = "=2.3.3", default-features = false }
thiserror = "=1.0.69"

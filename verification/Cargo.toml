[package]
name = "crates_io_logic"
version = "0.1.0"
edition = "2021"
publish = false

[dependencies]
base64 = "=0.22.1"
indexmap = "=2.14.2"
semver = "=1.0.28"
chrono = { version = "=0.4.45", default-features = false, features = ["std", "alloc"] }
regex = "=1.13.1"
badge = "=0.3.0"
serde = { version = "=1.0.229", features = ["derive"] }
serde_json = "=1.0.154"
dotenvy = "=0.15.7"
p256 = "=0.13.2"
sha2 = "=0.10.9"
hex = "=0.4.3"
http = "1"

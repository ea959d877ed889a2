[package]
name = "backup_restore"
version = "0.1.0"
edition = "2021"
publish = false

[dependencies]
base64 = "*"
flate2 = "*"
serde_json = "*"
postgres = "*"
dotenvy = "*"

[dependencies.reqwest]
version = "*"
default-features = false
features = ["blocking", "json"]

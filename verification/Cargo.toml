[package]
name = "bundle"
version = "0.1.0"
edition = "2021"
publish = false

[dependencies]
anyhow = "1"
chrono = "0.4"
fs_extra = "1"
semver = "1"
winsafe = { version = "*", features = ["advapi"] }
xml-rs = "0.8"
zip = { version = "0.6", default-features = false, features = ["deflate"] }

[dev-dependencies]
regex = "1"

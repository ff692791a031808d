[package]
name = "updater_core"
version = "0.1.0"
edition = "2021"
publish = false

[dependencies]
semver = "1"
rand = "0.8"
anyhow = "1"
reqwest = { version = "0.12", default-features = false, features = ["stream"] }
tokio = { version = "1", features = ["rt", "rt-multi-thread", "time", "macros", "sync"] }
futures-util = { version = "0.3", default-features = false }
serde = { version = "1", features = ["derive"] }
serde_json = "1"
chrono = { version = "0.4", default-features = false, features = ["clock"] }
zip = { version = "2", default-features = false, features = ["deflate"] }
tar = "0.4"
flate2 = "1"
bzip2 = "0.4"
xz2 = "0.1"
zstd = "0.13"
sevenz-rust = "0.6"

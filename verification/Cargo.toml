[package]
name = "l1j_rust"
version = "0.1.0"
edition = "2021"
publish = false

[dependencies]
anyhow = "1"
base64 = "0.22"
encoding_rs = "0.8"
serde = { version = "1", features = ["derive"] }
sha1 = "0.10"
sqlx = { version = "0.8", default-features = false, features = ["mysql", "runtime-tokio"] }
tokio = { version = "1", features = ["sync", "net", "rt-multi-thread", "macros", "io-util"] }
toml = "0.8"
tracing = "0.1"
tracing-subscriber = "0.3"

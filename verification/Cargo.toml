[package]
name = "surrealmud_portal"
version = "0.1.0"
edition = "2021"
publish = false

[dependencies]
serde_json = "1"
serde = { version = "1", features = ["derive"] }
bytes = "1"
futures = "0.3"
tokio = { version = "1", features = ["net", "sync", "time", "macros", "rt-multi-thread", "io-util"] }
tokio-util = { version = "0.7", features = ["codec"] }
tokio-stream = "0.1"
config = { version = "0.14", default-features = false, features = ["toml"] }
tracing = "0.1"
tracing-subscriber = { version = "0.3", default-features = false, features = ["fmt", "std"] }
surrealdb = { version = "1", default-features = false, features = ["protocol-ws"] }

[package]
name = "shyper"
version = "0.1.0"
edition = "2021"
publish = false

[dependencies]
anyhow = "1"
serde_json = "1"
slog = "2"
slog-scope = "4"
tokio = { version = "1", features = ["rt", "sync", "time"] }

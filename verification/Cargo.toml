[package]
name = "brilliant_pdf"
version = "0.1.0"
edition = "2021"
publish = false

[dependencies]
chrono = { version = "=0.4.45", features = ["serde"] }
serde = { version = "=1.0.229", features = ["derive"] }
serde_json = "=1.0.154"
reqwest = { version = "=0.12.28", features = ["json"] }
tokio = { version = "=1.54.1", features = ["rt", "time", "macros"] }
dirs = "=7.0.0"
dirs-next = "=2.0.0"
rusqlite = { version = "=0.41.0", features = ["bundled"] }
uuid = { version = "=1.29.0", features = ["v4"] }

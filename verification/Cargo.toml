[package]
name = "fh6-tel"
version = "0.1.0"
edition = "2021"
publish = false

[dependencies]
byteorder = "=1.5.0"
serde = { version = "=1.0.229", features = ["derive"] }
serde_json = "=1.0.154"
rusqlite = { version = "=0.41.1", features = ["bundled"] }
dirs = "=7.0.0"
tokio = { version = "=1.54.1", features = ["net", "rt-multi-thread", "macros"] }
thiserror = "=2.0.21"

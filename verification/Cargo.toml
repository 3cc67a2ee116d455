[package]
name = "progress_hashing"
version = "0.1.0"
edition = "2021"
publish = false

[dependencies]
blake3 = "*"
futures = "*"
rayon = "*"
serde = { version = "*", features = ["derive"] }
tokio = { version = "*", features = ["rt", "sync"] }
tokio-stream = "*"
walkdir = "*"

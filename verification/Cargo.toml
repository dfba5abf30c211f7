[package]
name = "hybrid"
version = "0.1.0"
edition = "2021"
publish = false

[dependencies]
heapless = { version = "0.8", features = ["serde"] }
serde = { version = "1", features = ["derive"] }
postcard = { version = "1", features = ["alloc"] }
clap = { version = "4", features = ["derive"] }
anyhow = "1"
serde_json = "1"
json_comments = "0.2"
libm = "0.2"

[package]
name = "dst_demo"
version = "0.1.0"
edition = "2021"
publish = false

[dependencies]
turmoil = "*"
tokio = { version = "*", features = ["rt", "sync", "io-util", "time", "macros"] }
ctrlc = "*"

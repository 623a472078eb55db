[package]
name = "soliditydefend"
version = "0.9.0"
edition = "2021"
publish = false

[dependencies]
anyhow = "1"
clap = "4"
tokio = { version = "1", features = ["rt-multi-thread"] }

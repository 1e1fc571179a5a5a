[package]
name = "agave_votor_scope"
version = "0.1.0"
edition = "2021"
publish = false

[dependencies]
anyhow = "1"
clap = { version = "4", features = ["derive"] }
console-subscriber = "0.4"
hdrhistogram = { version = "7", default-features = false }
tokio = { version = "1", features = ["full"] }

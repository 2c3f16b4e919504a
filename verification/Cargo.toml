[package]
name = "ssh_forwarder"
version = "0.1.0"
edition = "2021"
publish = false

[dependencies]
anyhow = "1"
clap = { version = "4", features = ["derive"] }
russh = "*"
tokio = { version = "1", features = ["full"] }

[package]
name = "gpu_server"
version = "0.1.0"
edition = "2021"
publish = false

[dependencies]
ssh2 = "*"
anyhow = "*"

[package]
name = "sgx_sdk_tools"
version = "0.1.0"
edition = "2021"
publish = false

[dependencies]
cc = "*"
toml = "*"
pathdiff = "*"
libc = "*"
anyhow = "*"
clap = { version = "4", features = ["derive"] }

[package]
name = "endless_ssh_rs"
version = "0.1.0"
edition = "2021"
publish = false

[dependencies]
rand = "*"
url = "*"
tokio = { version = "*", features = ["full"] }
tokio-util = "*"
clap = "*"
libc = "*"
tracing = "*"
tracing-subscriber = { version = "*", features = ["env-filter"] }
dotenvy = "*"
color-eyre = "*"

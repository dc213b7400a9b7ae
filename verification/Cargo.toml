[package]
name = "av1_operator"
version = "0.1.0"
edition = "2021"
publish = false

[dependencies]
flaken = "=0.2.2"
anyhow = "=1.0.104"
tokio = { version = "=1.54.1", features = ["rt-multi-thread", "macros", "fs", "io-util"] }
async-process = "=2.5.0"
serde = { version = "=1.0.229", features = ["derive"] }
tracing = "=0.1.44"
actix-web = "=4.18.1"
diesel = { version = "=2.3.14", features = ["sqlite", "r2d2"] }
local-ip-address = "=0.6.13"
config = "*"

[package]
name = "resource_host"
version = "0.1.0"
edition = "2021"
publish = false

[dependencies]
deno_core = "0.140"
log = "0.4"
tokio = { version = "1", features = ["io-util", "net", "rt"] }

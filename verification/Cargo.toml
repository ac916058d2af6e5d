[package]
name = "konnect-ipc"
version = "0.1.0"
edition = "2021"
publish = false

[dependencies]
anyhow = "1"
nng = "*"
prost = "*"
prost-types = "*"
tracing = "0.1"

[package]
name = "rrddmma"
version = "0.1.0"
edition = "2021"
publish = false

[dependencies]
rdma-sys = "0.3"
anyhow = "1"
thiserror = "1"
serde = { version = "1", features = ["derive"] }
serde_json = "1"
toml = "0.8"
quick-xml = "0.31"
regex = "1"
local-ip-address = "0.5"
libc = "0.2"
log = "0.4"

[package]
name = "mtcp_rs"
version = "0.1.0"
edition = "2021"
publish = false

[dependencies]
mio = { version = "0.8", features = ["os-poll", "net"] }
log = "0.4"
lazy_rc = "*"

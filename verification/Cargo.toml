[package]
name = "sozu_core"
version = "0.1.0"
edition = "2021"
publish = false

[dependencies]
rand = "=0.4.6"
mio = "=0.6.23"
openssl = "=0.10.81"
prettytable-rs = { version = "=0.10.0", default-features = false }

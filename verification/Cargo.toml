[package]
name = "warp_reverse_proxy"
version = "0.1.0"
edition = "2021"
publish = false

[dependencies]
bytes = "1"
http = "0.2"
reqwest = { version = "0.11", default-features = false }
thiserror = "1"
unicase = "2"
warp = { version = "0.3", default-features = false }

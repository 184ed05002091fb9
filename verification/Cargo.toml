[package]
name = "edge-nal-embassy"
version = "0.1.0"
edition = "2021"
publish = false

[dependencies]
edge-nal = "=0.5.0"
embassy-futures = "=0.1.2"
embassy-net = { version = "0.9", default-features = false, features = ["tcp", "udp", "raw", "dns", "proto-ipv4", "proto-ipv6", "medium-ethernet", "multicast"] }
embedded-io-async = "=0.6.1"

[package]
name = "ape_mbr"
version = "0.1.0"
edition = "2021"
publish = false

[dependencies]
embedded-io = { version = "0.4.0", features = ["std"] }

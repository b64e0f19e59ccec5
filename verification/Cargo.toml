[package]
name = "test_server"
version = "0.1.0"
edition = "2021"
publish = false

[dependencies]
actix-web = { version = "4", default-features = false }
crossbeam = "0.8"
crossbeam-channel = "0.5"
futures-util = { version = "0.3", default-features = false }

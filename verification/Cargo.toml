[package]
name = "corona"
version = "0.4.3"
edition = "2021"
publish = false

[dependencies]
context = "2"
futures = "0.1"
tokio = "0.1"
tokio-current-thread = "0.1"
tokio-io = "0.1"

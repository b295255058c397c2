[package]
name = "futures_await"
version = "0.1.0"
edition = "2021"
publish = false

[dependencies]
futures = "0.3"
proc-macro2 = "1"
quote = "1"
syn = { version = "2", features = ["full", "fold"] }

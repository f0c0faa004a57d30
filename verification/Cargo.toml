[package]
name = "oricalchum"
version = "0.1.0"
edition = "2021"
publish = false

[dependencies]
async-trait = "*"
tokio = { version = "*", features = ["rt-multi-thread", "macros", "sync", "time"] }

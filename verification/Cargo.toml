[package]
name = "throw_overlay"
version = "0.1.0"
edition = "2021"
publish = false

[dependencies]
anyhow = "*"
crossbeam = "*"
image = "*"
nalgebra = "*"
tokio = { version = "*", features = ["rt-multi-thread", "macros", "time", "fs", "sync"] }

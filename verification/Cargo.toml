[package]
name = "perseus_tailwind"
version = "0.1.0"
edition = "2021"
publish = false

[dependencies]
log = "0.4"
perseus = "0.4"
reqwest = { version = "0.11", features = ["blocking"] }
tokio = { version = "1", features = ["rt-multi-thread"] }

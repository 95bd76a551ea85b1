[package]
name = "portal_core"
version = "0.1.0"
edition = "2021"
publish = false

[dependencies]
base64 = "0.13"
tokio = { version = "1", features = ["rt-multi-thread", "time", "macros"] }
tokio-postgres = "0.7"
deadpool-postgres = "*"

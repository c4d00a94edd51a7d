[package]
name = "fileflex"
version = "0.1.0"
edition = "2021"

[dependencies]
tokio = { version = "1", features = ["fs"] }

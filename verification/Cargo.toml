[package]
name = "term_controller"
version = "0.1.0"
edition = "2021"
publish = false

[dependencies]
crossterm = "*"
tokio = { version = "*", features = ["rt", "rt-multi-thread", "sync", "macros"] }

[package]
name = "frontier_blitz"
version = "0.1.0"
edition = "2021"
publish = false

[dependencies]
anyrender = "=0.6.2"
blitz-dom = { version = "=0.2.4", default-features = false }
blitz-html = { version = "=0.2.0", default-features = false }
blitz-shell = { version = "=0.2.3", default-features = false }
blitz-traits = "=0.2.0"
tracing = "=0.1.44"
tracing-subscriber = { version = "=0.3.23", features = ["env-filter"] }
winit = "=0.30.13"

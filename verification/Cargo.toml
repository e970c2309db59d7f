[package]
name = "tower_pipeline"
version = "0.1.0"
edition = "2021"
publish = false

[dependencies]
tower-service = "0.3"
pin-project-lite = "0.2"
futures-util = { version = "0.3", default-features = false }

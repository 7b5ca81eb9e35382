[package]
name = "plotly"
version = "0.1.0"
edition = "2021"
publish = false

[dependencies]
ndarray = "0.15"

[dev-dependencies]
serde_json = "1"

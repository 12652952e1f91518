[package]
name = "batch_estimation"
version = "0.1.0"
edition = "2021"
publish = false

[dependencies]
matfile = { version = "=0.5.0", features = ["ndarray"] }
ndarray = "=0.16.1"

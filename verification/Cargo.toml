[package]
name = "sterio_signal"
version = "0.1.0"
edition = "2021"
publish = false

[dependencies]
dasp = "*"
dasp_sample = "*"
dasp_signal = "*"
serde = { version = "*", features = ["derive"] }

[package]
name = "plix"
version = "0.1.0"
edition = "2021"
publish = false

[dependencies]
bytemuck = "1"
chrono = "0.4"
flume = "0.11"
image = { version = "0.24", default-features = false, features = ["png"] }
notify = "6"
pollster = "0.3"

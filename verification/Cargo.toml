[package]
name = "adi-adxl355"
version = "0.1.0"
edition = "2021"
publish = false

[dependencies]
embedded-hal = "1.0"
embedded-hal-async = "1.0"
micromath = { version = "2", features = ["vector"] }
thiserror = "1"

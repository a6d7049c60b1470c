[package]
name = "serial_telemetry"
version = "0.1.0"
edition = "2021"
publish = false

[dependencies]
crossbeam-channel = "*"
serialport = { version = "*", default-features = false }

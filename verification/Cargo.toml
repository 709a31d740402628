[package]
name = "gc_input_viewer"
version = "0.1.0"
edition = "2021"
publish = false

[dependencies]
serde = "=1.0.229"
serde_derive = "=1.0.229"
serde_json = "=1.0.151"
serde_yaml = "=0.9.34"
serialport = { version = "=4.10.1", default-features = false }

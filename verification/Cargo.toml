[package]
name = "twain2"
version = "0.1.0"
edition = "2021"
publish = false

[dependencies]
libloading = "0.8"
log = "0.4"
parking_lot = "0.12"
winapi = { version = "0.3", features = ["winbase"] }

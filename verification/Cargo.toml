[package]
name = "rapidgzip"
version = "0.1.0"
edition = "2021"
publish = false

[dependencies]
libc = "0.2"
tempfile = "3"
thiserror = "2"

[dev-dependencies]
flate2 = "1"

[package]
name = "fc"
version = "0.1.0"
edition = "2021"

[dependencies]
image = { version = "0.24", default-features = false, features = ["png"] }
once_cell = "1"

[dev-dependencies]
bytes = "1"

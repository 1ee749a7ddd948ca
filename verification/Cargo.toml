[package]
name = "fujinet"
version = "0.1.0"
edition = "2021"
publish = false

[dependencies]
libc = "0.2"
once_cell = "1"
reqwest = { version = "0.12", default-features = false }
thiserror = "1"
tokio = { version = "1", features = ["rt", "rt-multi-thread"] }

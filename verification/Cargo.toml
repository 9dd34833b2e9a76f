[package]
name = "four_cc"
version = "0.1.0"
edition = "2021"
publish = false

[dependencies]
schemars = "0.8"
serde = "1"
zerocopy = { version = "0.7", features = ["derive"] }

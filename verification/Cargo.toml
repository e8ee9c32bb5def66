[package]
name = "tok"
version = "0.1.0"
edition = "2021"
publish = false

[dependencies]
constant_time_eq = "*"
rand = "*"
serde = { version = "*", features = ["derive"] }

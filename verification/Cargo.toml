[package]
name = "cffdrs"
version = "0.1.0"
edition = "2021"
publish = false

[dependencies]
chrono = "*"
geo = "*"
julian = "*"
serde = { version = "*", features = ["derive"] }

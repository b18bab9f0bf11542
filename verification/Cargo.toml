[package]
name = "pi_estimator"
version = "0.1.0"
edition = "2021"
publish = false

[dependencies]
rand = "*"
rocket = { version = "*", features = ["json"] }
serde = { version = "*", features = ["derive"] }

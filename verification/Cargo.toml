[package]
name = "full_service"
version = "0.1.0"
edition = "2021"
publish = false

[dependencies]
diesel = { version = "=1.4.8", features = ["sqlite", "r2d2"] }
hex = "=0.4.3"

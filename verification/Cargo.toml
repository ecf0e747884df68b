[package]
name = "car_sim"
version = "0.1.0"
edition = "2021"
publish = false

[dependencies]
sfml = { version = "=0.21.0", default-features = false, features = ["graphics"] }

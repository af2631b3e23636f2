[package]
name = "earth_el"
version = "0.1.0"
edition = "2021"
publish = false

[dependencies]
flate2 = "*"
reqwest = { version = "*", default-features = false, features = ["blocking"] }

[package]
name = "flat_value"
version = "0.1.0"
edition = "2021"
publish = false

[dependencies]
der = { version = "*", features = ["std", "real", "derive"] }

[package]
name = "rocket_sentry"
version = "0.1.0"
edition = "2021"
publish = false

[dependencies]
rocket = { version = "0.5", default-features = false }
sentry = { version = "*", default-features = false }

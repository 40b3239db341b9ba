[package]
name = "pasty"
version = "0.1.0"
edition = "2021"
publish = false

[dependencies]
chrono = { version = "0.4", default-features = false, features = ["clock", "std"] }
nanoid = "0.4"
redb = "2"
rocket = { version = "0.5", features = ["json"] }
serde = { version = "1", features = ["derive"] }
url = "2"

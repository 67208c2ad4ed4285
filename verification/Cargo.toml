[package]
name = "contact"
version = "0.1.0"
edition = "2021"
publish = false

[dependencies]
clap = { version = "3.2", features = ["derive"] }
email_address = { version = "0.2", default-features = false }
rusqlite = "0.32"

[package]
name = "observer"
version = "0.1.0"
edition = "2021"
publish = false

[dependencies]
actix-files = "0.6"
actix-web = { version = "4", default-features = false, features = ["macros"] }
actix-web-lab = "0.18"
anyhow = "1"
chrono = { version = "0.4", default-features = false, features = ["clock", "std"] }
clap = { version = "3.2", features = ["derive"] }
config = { version = "0.13", default-features = false, features = ["yaml"] }
crossbeam-channel = "0.5"
gtk4 = "0.5"
headless_chrome = "1.0"
serde = { version = "1", features = ["derive"] }
validator = "0.16"

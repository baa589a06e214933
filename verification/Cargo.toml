[package]
name = "sert"
version = "0.1.0"
edition = "2021"
publish = false

[dependencies]
chrono = { version = "0.4", default-features = false, features = ["std"] }
termion = "*"
termios = "0.3"

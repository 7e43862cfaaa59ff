[package]
name = "cosmic_watch"
version = "0.1.0"
edition = "2021"
publish = false

[dependencies]
chrono = "0.4"
notify-rust = { version = "4", default-features = false, features = ["z"] }

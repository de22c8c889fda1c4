[package]
name = "flummis"
version = "0.1.0"
edition = "2021"
publish = false

[dependencies]
rand = "=0.10.3"
rand_chacha = "=0.10.0"
serde = { version = "=1.0.229", features = ["derive"] }
ron = "=0.12.3"
bevy = { version = "=0.18.1", default-features = false, features = ["std", "keyboard"] }

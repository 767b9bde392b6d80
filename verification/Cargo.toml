[package]
name = "game_launcher"
version = "0.1.0"
edition = "2021"
publish = false

[dependencies]
steamlocate = "=2.1.1"
iced = { version = "=0.12.1", default-features = false }

[dev-dependencies]
tempfile = "3"

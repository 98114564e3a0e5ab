[package]
name = "game_25"
version = "0.1.0"
edition = "2021"
publish = false

[dependencies]
macroquad = "0.4"
gilrs = "*"
once_cell = "1"
rfd = "*"
serde = { version = "1", features = ["derive"] }
serde_json = "1"
walkdir = "2"

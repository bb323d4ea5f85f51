[package]
name = "chatroom"
version = "0.1.0"
edition = "2021"
publish = false

[dependencies]
termion = "1"
tui = { version = "*", default-features = false, features = ["termion"] }

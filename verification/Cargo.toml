[package]
name = "vocab_learn"
version = "0.1.0"
edition = "2021"
publish = false

[dependencies]
rand = "*"
termion = "1.5"
tui = { version = "*", default-features = false, features = ["termion"] }

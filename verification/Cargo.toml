[package]
name = "img2irc"
version = "0.1.0"
edition = "2021"
publish = false

[dependencies]
oklab = "*"
image = "*"
clap = { version = "*", features = ["derive"] }

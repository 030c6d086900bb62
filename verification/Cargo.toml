[package]
name = "free"
version = "0.1.0"
edition = "2021"
publish = false

[dependencies]
cfonts = "*"
clap = { version = "*", features = ["derive"] }
libc = "*"
serde = { version = "*", features = ["derive"] }
size = "*"

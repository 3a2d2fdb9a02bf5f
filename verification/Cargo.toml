[package]
name = "text_expander"
version = "0.1.0"
edition = "2021"
publish = false

[dependencies]
evdev = "*"
libc = "*"
serde = { version = "*", features = ["derive"] }
serde_yaml = "*"

[package]
name = "open_legato"
version = "0.1.0"
edition = "2021"
publish = false

[dependencies]
evdev = "*"
libc = "0.2"
serde = { version = "1", features = ["derive"] }

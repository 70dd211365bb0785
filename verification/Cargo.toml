[package]
name = "rdev"
version = "0.1.0"
edition = "2021"
publish = false

[dependencies]
cocoa = "0.24"
core-graphics = "0.22"
winapi = { version = "0.3", features = ["winuser", "errhandlingapi"] }

[package]
name = "joykbd"
version = "0.1.0"
edition = "2021"
publish = false

[dependencies]
anyhow = "1"
clap = { version = "3", features = ["derive"] }
evdev = { version = "0.12", features = ["tokio"] }
tokio = { version = "1", features = ["macros", "rt", "time"] }

[package]
name = "termplay"
version = "0.1.0"
edition = "2021"
publish = false

[dependencies]
anyhow = "=1.0.104"
clipboard = "=0.5.0"
futures = { version = "=0.3.34", features = ["thread-pool"] }
gstreamer = "=0.18.8"
gstreamer-player = "=0.18.0"
serde = { version = "=1.0.229", features = ["derive"] }
serde_json = "=1.0.154"
termion = "=1.5.6"
tui = { version = "=0.19.0", default-features = false, features = ["termion"] }
unicode-width = "=0.1.14"

[package]
name = "sleep_timer"
version = "0.1.0"
edition = "2021"

[dependencies]
axum = "*"
http = "*"
mpd = "*"
tokio = { version = "*", features = ["macros", "rt-multi-thread", "sync", "time", "net"] }

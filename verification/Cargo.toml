[package]
name = "mpd_notification"
version = "0.1.0"
edition = "2021"
publish = false

[dependencies]
config = "*"
directories = "*"
mpd = "*"
notify-rust = "*"

[dev-dependencies]
lazy-regex = "*"

[package]
name = "kaijutsu_app"
version = "0.1.0"
edition = "2021"
publish = false

[dependencies]
alsa = "=0.12.1"
arboard = { version = "=3.7.0", default-features = false }
bevy = { version = "=0.18.1", default-features = false, features = ["std", "bevy_state", "bevy_window", "keyboard", "mouse", "gamepad"] }
clap = { version = "=4.6.7", features = ["derive"] }
crossbeam-channel = "=0.5.17"
dirs = "=7.0.0"
editor-types = "=0.0.2"
hostname = "=0.4.2"
log = "=0.4.35"
modalkit = "=0.0.24"
serde = { version = "=1.0.229", features = ["derive"] }
tokio = { version = "=1.54.1", features = ["rt", "rt-multi-thread", "sync", "time", "macros"] }
toml = "=1.1.8"
tracing = "=0.1.44"
tracing-appender = "=0.2.5"
tracing-subscriber = { version = "=0.3.23", features = ["env-filter"] }
whoami = "=1.6.1"

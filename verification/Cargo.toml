[package]
name = "vosk-dictation"
version = "0.1.0"
edition = "2021"
publish = false

[dependencies]
crossbeam-channel = "=0.5.17"
env_logger = "=0.11.11"
evdev = "=0.12.2"
futures-util = "=0.3.34"
gtk4 = "*"
log = "=0.4.35"
rodio = { version = "=0.22.2", features = ["recording"] }
tokio = { version = "=1.54.1", features = ["rt", "macros"] }
vosk = "=0.3.1"
x11rb = "=0.13.2"
zbus = "=5.19.0"

[package]
name = "ayuz"
version = "0.1.0"
edition = "2021"
publish = false

[dependencies]
evdev = { version = "0.13", features = ["tokio"] }
tokio = { version = "1", features = ["rt-multi-thread", "macros", "process", "sync", "time"] }
relm4 = { version = "0.9", features = ["libadwaita"] }
gtk4 = "0.9"
ksni = "0.2"
rust-i18n = "3"
tracing = "0.1"

[package]
name = "diary"
version = "0.1.0"
edition = "2021"
publish = false

[dependencies]
chrono = { version = "0.4", default-features = false, features = ["clock", "std"] }
event-listener = "*"
notify = "*"
tokio = { version = "1", features = ["macros", "rt-multi-thread"] }
zbus = "*"

[package]
name = "tracker_bridge"
version = "0.1.0"
edition = "2021"
publish = false

[dependencies]
btleplug = "=0.11.8"
dbus = { version = "=0.9.12", features = ["vendored"] }
enigo = "=0.1.3"
futures = "=0.3.34"
tokio = { version = "=1.54.1", features = ["macros", "rt-multi-thread", "time"] }
tracing = "=0.1.44"
tracing-subscriber = "=0.3.23"

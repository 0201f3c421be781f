[package]
name = "portal_bypass"
version = "0.1.0"
edition = "2021"
publish = false

[dependencies]
evdev = "=0.13.2"
zbus = "=5.19.0"
calloop = { version = "=0.14.5", features = ["signals", "executor"] }
anyhow = "=1.0.104"
futures = "=0.3.34"
tracing = "=0.1.44"
tracing-subscriber = { version = "=0.3.23", features = ["env-filter"] }

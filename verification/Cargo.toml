[package]
name = "morpheus"
version = "0.1.0"
edition = "2021"
publish = false

[dependencies]
zbus = { version = "*", default-features = false, features = ["tokio"] }
tokio = { version = "*", features = ["fs", "macros", "rt-multi-thread"] }
udev = "*"
futures = "*"

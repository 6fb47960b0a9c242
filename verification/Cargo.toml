[package]
name = "busbind"
version = "0.1.0"
edition = "2021"
publish = false

[dependencies]
time = { version = "*", features = ["parsing"] }
zbus = "*"
zvariant = "*"
futures-util = "*"
futures-channel = "*"
procfs = "*"

[package]
name = "xcap"
version = "0.1.0"
edition = "2021"
publish = false

[dependencies]
directories = "*"
rand = "*"
serde = { version = "*", features = ["derive"] }
log = "*"
zbus = "*"
pipewire = "*"

[package]
name = "gtfu"
version = "0.1.0"
edition = "2021"
publish = false

[dependencies]
anyhow = "1"
clap = { version = "4", features = ["derive"] }
env_logger = "0.11"
human-panic = "2"
lazy_static = "1"
log = "0.4"
procspawn = "1"
user-idle = "*"
uzers = "*"
wayland-client = "0.31"
wayland-protocols = { version = "0.32", features = ["client", "staging"] }
x11rb = "0.13"

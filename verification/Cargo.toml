[package]
name = "xfw"
version = "0.1.0"
edition = "2021"
publish = false

[dependencies]
anyhow = "=1.0.104"
thiserror = "=1.0.69"
tracing = "=0.1.44"
tracing-subscriber = { version = "=0.3.23", features = ["env-filter"] }
parking_lot = "=0.12.5"
libc = "=0.2.191"
memmap2 = "=0.9.12"
mio = { version = "=1.2.4", features = ["os-poll", "os-ext"] }
wayland-client = "=0.31.15"
wayland-protocols = { version = "=0.32.13", features = ["client"] }
wayland-protocols-wlr = { version = "=0.3.12", features = ["client"] }
inotify = "=0.11.5"

[dev-dependencies]
rustix = { version = "=1.1.6", features = ["pipe", "std"] }

[package]
name = "wl_scrcpy"
version = "0.1.0"
edition = "2021"
publish = false

[dependencies]
image = { version = "0.24", default-features = false, features = ["png"] }
libc = "0.2"
thiserror = "1"
wayland-client = "0.31"
wayland-protocols-wlr = { version = "0.2", features = ["client"] }
smithay-client-toolkit = { version = "0.18", default-features = false }

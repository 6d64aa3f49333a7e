[package]
name = "kwaymag"
version = "0.1.0"
edition = "2021"
publish = false

[dependencies]
anyhow = "1"
ashpd = { version = "0.9", default-features = false, features = ["tokio"] }
drm-fourcc = "2"
env_logger = "0.11"
gbm = "0.18"
gl = "0.14"
khronos-egl = { version = "6", features = ["dynamic"] }
log = "0.4"
nix = { version = "0.29", features = ["fs", "mman", "poll"] }
pipewire = "0.9"
tokio = { version = "1", features = ["rt", "net", "time"] }
wayland-backend = { version = "0.3", features = ["client_system", "dlopen"] }
wayland-client = "0.31"
wayland-egl = "0.32"
wayland-protocols = { version = "0.32", features = ["client", "unstable", "staging"] }

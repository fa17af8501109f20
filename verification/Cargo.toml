[package]
name = "libwaysip"
version = "0.1.0"
edition = "2021"
publish = false

[dependencies]
atty = "*"
cairo-rs = "*"
clap = { version = "*", features = ["derive"] }
memmap2 = "*"
pango = "*"
pangocairo = "*"
tempfile = "*"
thiserror = "*"
tracing = "*"
tracing-subscriber = "*"
wayland-client = "*"
wayland-cursor = "*"
wayland-protocols = { version = "*", features = ["client", "staging", "unstable"] }
wayland-protocols-wlr = { version = "*", features = ["client"] }

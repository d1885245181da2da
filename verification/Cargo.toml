[package]
name = "wl_keys"
version = "0.1.0"
edition = "2021"
publish = false

[dependencies]
anyhow = "1"
clap = { version = "4", features = ["derive"] }
input-event-codes = "*"
once_cell = "1"
prost = "*"
serde = { version = "1", features = ["derive"] }
serde_json = "1"
tokio = { version = "1", features = ["rt-multi-thread", "macros", "time", "sync"] }
tonic = "*"
wayland-client = "0.31"
wayland-protocols-misc = { version = "*", features = ["client"] }

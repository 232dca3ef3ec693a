[package]
name = "df_displmgr"
version = "0.1.0"
edition = "2021"
publish = false

[dependencies]
async-trait = "0.1"
drm = "*"
futures = "0.3"
serde = { version = "1", features = ["derive"] }
serde_json = "1"
thiserror = "1"
tokio = { version = "1", features = ["rt-multi-thread", "macros", "sync", "time"] }
wayland-client = "0.31"
wayland-protocols-wlr = { version = "0.3", features = ["client"] }

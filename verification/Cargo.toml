[package]
name = "booru_wallpaper"
version = "0.1.0"
edition = "2021"
publish = false

[dependencies]
anyhow = "=1.0.104"
booru-rs = "=0.3.2"
clap = { version = "=4.6.7", features = ["derive"] }
directories = "=6.0.0"
image = { version = "=0.25.10", default-features = false, features = ["png", "jpeg", "gif", "webp"] }
log = "=0.4.35"
pretty_env_logger = "=0.5.0"
reqwest = { version = "=0.12.28", default-features = false, features = ["rustls-tls"] }
serde = { version = "=1.0.229", features = ["derive"] }
tokio = { version = "=1.54.1", features = ["macros", "rt-multi-thread", "signal", "time", "fs"] }
toml = "=1.1.8"
wallpaper = "=3.2.0"

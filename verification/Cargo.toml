[package]
name = "roseate"
version = "0.1.0"
edition = "2021"
publish = false

[dependencies]
imagesize = "=0.15.0"
kamadak-exif = "=0.6.1"
textwrap = "=0.16.4"
bytemuck = "=1.25.2"
image = { version = "=0.25.10", default-features = false, features = ["png", "jpeg", "gif", "webp", "tiff"] }
serde = { version = "=1.0.229", features = ["derive"] }
serde_json = "=1.0.154"
toml = "=1.2.1"
clap = { version = "=4.6.7", features = ["derive"] }
dirs = "=7.0.0"
svg_metadata = "=0.6.0"
log = "=0.4.35"
env_logger = "=0.11.11"
fs2 = "=0.4.3"
chrono = "=0.4.45"
rayon = "=1.12.0"

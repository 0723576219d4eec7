[package]
name = "kondo_ui"
version = "0.1.0"
edition = "2021"
publish = false

[dependencies]
chrono = "=0.4.45"
dirs = "=6.0.0"
fern = "=0.6.2"
kondo-lib = "=0.9.0"
lazy_static = "=1.5.1"
log = "=0.4.34"
rustbreak = { version = "=2.0.0", features = ["ron_enc"] }
serde = { version = "=1.0.229", features = ["derive"] }
serde_json = "=1.0.154"
shellexpand = "=3.1.2"
window-vibrancy = "0.4"

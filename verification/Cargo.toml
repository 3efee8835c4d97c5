[package]
name = "keycap"
version = "0.1.0"
edition = "2021"
publish = false

[dependencies]
serde = { version = "1", features = ["derive"] }
toml = "0.8"
rdev = "0.5"
crossbeam = "0.8"
log = "0.4"
winit = "0.30"
softbuffer = "0.4"
tiny-skia = "0.11"
raw-window-handle = "0.6"
ksni = "0.1"
tray-icon = "0.14"

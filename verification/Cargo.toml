[package]
name = "render_core"
version = "0.1.0"
edition = "2021"
publish = false

[dependencies]
ash = "=0.37.3"
ash-window = "=0.12.0"
winit = "=0.28.7"
raw-window-handle = "=0.5.2"
image = { version = "=0.24.9", default-features = false, features = ["jpeg", "png"] }
log = "=0.4.34"
simple_logger = "=4.3.3"
memoffset = "=0.9.1"

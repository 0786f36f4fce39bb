[package]
name = "hdrview"
version = "0.1.0"
edition = "2021"
publish = false

[dependencies]
wgpu = "=30.0.1"
winit = "=0.30.13"
image = { version = "=0.25.10", default-features = false, features = ["exr", "png", "hdr"] }
exr = "=1.74.2"
half = "=2.7.1"
clap = { version = "=4.6.7", features = ["derive"] }
anyhow = "=1.0.104"
env_logger = "=0.11.11"
pollster = "=0.4.0"
objc2 = "=0.6.5"
objc2-foundation = "=0.3.2"
core-foundation-sys = "=0.8.7"
dispatch2 = "=0.3.1"
windows = { version = "=0.62.2", features = ["Win32_Devices_Display", "Win32_Foundation", "Win32_Graphics_Dxgi", "Win32_Graphics_Dxgi_Common", "Win32_UI_WindowsAndMessaging"] }

[package]
name = "seagull"
version = "0.1.0"
edition = "2021"
publish = false

[dependencies]
anyhow = "=1.0.104"
bytemuck = "=1.25.2"
egui = "=0.37.0"
egui_glow = "=0.37.0"
egui-winit = { version = "=0.37.0", default-features = false }
env_logger = "=0.11.11"
glm = "=0.2.3"
glow = "=0.17.0"
glutin = "=0.32.3"
glutin-winit = "=0.5.0"
log = "=0.4.34"
rand = "=0.9.5"
winit = "=0.30.13"

[package]
name = "sldshow2"
version = "0.1.0"
edition = "2021"
publish = false

[dependencies]
lru = "*"
rand = "*"
alphanumeric-sort = "*"
image = { version = "0.25", default-features = false, features = ["png", "jpeg", "gif", "bmp", "tiff", "webp", "ico", "tga", "hdr", "pnm", "dds", "qoi", "exr"] }
camino = "1"
wgpu = "25"
winit = "0.30"
egui = "0.32"
egui-wgpu = "0.32"
egui-winit = { version = "0.32", default-features = false, features = ["wayland", "x11"] }
egui-phosphor = "0.10"
half = "2"
bytemuck = { version = "1", features = ["derive"] }
exr = "1"
fast_image_resize = "5"
rayon = "1"
anyhow = "1"
log = "0.4"
env_logger = "0.11"
pollster = "0.4"
dirs = "6"
arboard = "3"
serde = { version = "1", features = ["derive"] }
toml = "0.8"
thiserror = "2"
font-loader = "0.11"
kamadak-exif = "0.6"

[package]
name = "brengin"
version = "0.1.0"
edition = "2021"
publish = false

[dependencies]
bytemuck = "=1.25.2"
glam = "=0.34.2"
image = { version = "=0.25.10", default-features = false, features = ["png"] }
serde = { version = "=1.0.229", features = ["derive"] }
serde_derive = "=1.0.229"
serde_json = "=1.0.154"
thiserror = "=2.0.21"
pollster = "=1.0.1"
async-lock = "=3.5.0"
cecs = "*"
rustybuzz = "*"
tiny-skia = "*"
instant = "*"
anyhow = "*"
smallvec = "*"

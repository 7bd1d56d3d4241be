[package]
name = "vulkan_rust"
version = "0.1.0"
edition = "2021"
publish = false

[dependencies]
anyhow = "=1.0.104"
thiserror = "=1.0.69"
log = "=0.4.35"
pretty_env_logger = "=0.5.0"
ctrlc = "=3.5.2"
lazy_static = "=1.5.1"
nalgebra-glm = "=0.18.0"
png = "=0.17.16"
tobj = "=3.2.5"
vulkanalia = { version = "=0.17.0", features = ["libloading", "window"] }
winit = "=0.26.1"

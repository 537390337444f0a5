[package]
name = "render_harness"
version = "0.1.0"
edition = "2021"
publish = false

[dependencies]
anyhow = "1"
env_logger = "0.7"
futures = "0.3"
imgui = "0.4"
imgui-wgpu = "0.7"
imgui-winit-support = "0.4"
shaderc = "0.6"
wgpu = "0.5"
winit = "0.22"

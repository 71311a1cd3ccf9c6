[package]
name = "frame_host"
version = "0.1.0"
edition = "2021"
publish = false

[dependencies]
egui = "0.30"
egui-wgpu = "0.30"
egui-winit = "0.30"
log = "0.4"
pollster = "0.4"
simple_logger = "5"
wgpu = "23"
winit = "0.30"

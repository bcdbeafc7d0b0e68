[package]
name = "pupsy_engine"
version = "0.1.0"
edition = "2021"
publish = false

[dependencies]
num = "*"
ash = "*"
winit = "*"
imgui = "*"
imgui-winit-support = "*"
memoffset = "*"
ash-window = "*"
raw-window-handle = "*"

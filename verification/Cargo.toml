[package]
name = "imgui_dx9_renderer"
version = "0.1.0"
edition = "2021"
publish = false

[dependencies]
imgui = "0.8"
winapi = { version = "0.3", features = ["d3d9", "d3d9caps", "d3d9types", "minwindef", "windef", "winerror"] }
wio = "0.2"

[package]
name = "cliptext"
version = "0.1.0"
edition = "2021"
publish = false

[dependencies]
clipboard-rs = "=0.3.5"
image = "=0.25.10"
imgui = "=0.12.0"
imgui-glow-renderer = "=0.13.0"
imgui-sdl2-support = "=0.13.0"
ocrs = "=0.13.1"
rten = "=0.26.0"
rten-imageproc = "=0.26.0"
rten-tensor = "=0.26.0"
sdl2 = "=0.37.0"

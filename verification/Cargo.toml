[package]
name = "frameloop"
version = "0.1.0"
edition = "2021"
publish = false

[dependencies]
gl = "=0.14.0"
image = "=0.25.10"
imgui-glfw-rs = { version = "=0.13.1", features = ["opengl"] }

[package]
name = "shiota_engine"
version = "0.1.0"
edition = "2021"
publish = false

[dependencies]
image = "*"
uuid = { version = "*", features = ["v4"] }
gl = "*"
gl_loader = "*"
glfw = "*"

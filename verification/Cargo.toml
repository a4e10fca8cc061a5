[package]
name = "eva_editor"
version = "0.1.0"
edition = "2021"
publish = false

[dependencies]
anyhow = "*"
env_logger = "*"
freetype-rs = "*"
gl = "*"
glfw = "*"
log = "*"

[package]
name = "sdf_renderer"
version = "0.1.0"
edition = "2021"
publish = false

[dependencies]
cgmath = "*"
gl = "*"
glow = "*"
imgui = "*"
imgui-opengl-renderer = "*"
imgui-sdl2 = "*"
log = "*"
luminance = "*"
luminance-derive = "*"
luminance-sdl2 = "*"
pretty_env_logger = "*"
sdl2 = "*"

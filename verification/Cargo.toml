[package]
name = "render_engine"
version = "0.1.0"
edition = "2021"
publish = false

[dependencies]
ahash = "0.8"
bytemuck = { version = "1", features = ["derive"] }
clap = { version = "4", features = ["derive"] }
glam = "0.25"
log = "0.4"
message-io = "*"
sdl2 = "0.36"
tobj = "4.0"

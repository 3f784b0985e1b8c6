[package]
name = "iced_glutin"
version = "0.7.0"
edition = "2021"
publish = false

[dependencies]
futures = "0.3"
log = "0.4"
glutin = { version = "0.29", default-features = false, features = ["x11"] }
iced_graphics = { version = "0.7", features = ["opengl"] }
iced_native = "0.9"
iced_winit = { version = "0.8", features = ["application"] }

[package]
name = "gl_app"
version = "0.1.0"
edition = "2021"
publish = false

[dependencies]
gl = "0.14"
glutin = { version = "0.32", default-features = false, features = ["egl"] }

[package]
name = "window_host"
version = "0.1.0"
edition = "2021"
publish = false

[dependencies]
gl = "=0.14.0"
log = "=0.4.34"
x11 = { version = "=2.21.0", features = ["xlib", "glx"] }
xcb = { version = "=0.9.0", features = ["xlib_xcb", "thread"] }

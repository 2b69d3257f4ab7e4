[package]
name = "easymacros"
version = "0.1.0"
edition = "2021"
publish = false

[dependencies]
clap = { version = "*", features = ["derive"] }
evdev = "*"
x11 = { version = "*", default-features = false, features = ["xlib"] }

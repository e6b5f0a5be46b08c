[package]
name = "dingtalk-wayland-screenshare"
version = "0.1.0"
edition = "2021"
publish = false

[dependencies]
libc = "=0.2.191"
parking_lot = "0.12"
pipewire = "0.9"
resize = "=0.8.9"
rgb = "=0.8.53"
x11 = { version = "=2.21.0", features = ["xlib"] }
zbus = "5.14"

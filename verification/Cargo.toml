[package]
name = "monitor_hop"
version = "0.1.0"
edition = "2021"
publish = false

[dependencies]
device_query = "*"
x11 = { version = "*", features = ["xlib", "xrandr"] }

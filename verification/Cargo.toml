[package]
name = "tuigui_x"
version = "0.1.0"
edition = "2021"
publish = false

[dependencies]
tuigui = "*"
xcb = "1"

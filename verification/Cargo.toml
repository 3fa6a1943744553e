[package]
name = "widget"
version = "0.1.0"
edition = "2021"
publish = false

[dependencies]
embedded-graphics = "*"
embedded-text = "*"
u8g2-fonts = { version = "*", features = ["embedded_graphics_textstyle"] }

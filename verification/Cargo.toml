[package]
name = "niri_cursor"
version = "0.1.0"
edition = "2021"
publish = false

[dependencies]
csscolorparser = "0.7"
knuffel = "3.2"
fastrand = "2"
pango = "*"
pangocairo = "*"

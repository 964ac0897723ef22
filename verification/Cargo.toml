[package]
name = "refract_core"
version = "0.1.0"
edition = "2021"
publish = false

[dependencies]
lodepng = "*"
jpeg-decoder = "*"
rgb = "*"
argyle = "*"
dowser = "*"
write_atomic = "*"
libwebp-sys2 = "*"
libavif-sys = "*"
jpegxl-sys = "*"

[package]
name = "frame_loop"
version = "0.1.0"
edition = "2021"
publish = false

[dependencies]
android_glue = "=0.2.3"
conrod = "=0.61.1"
find_folder = "=0.3.0"
image = { version = "=0.22.5", default-features = false, features = ["png_codec"] }
rusttype = "=0.5.2"

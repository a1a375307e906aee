[package]
name = "imagepress"
version = "0.1.0"
edition = "2021"
publish = false

[dependencies]
image = { version = "=0.25.10", default-features = false, features = ["bmp", "gif", "ico", "jpeg", "png", "tiff", "webp", "rayon"] }
imagequant = { version = "=4.4.1", default-features = false }
mozjpeg = "=0.10.13"
oxipng = { version = "=10.2.1", default-features = false }
ravif = { version = "=0.13.0", default-features = false }
rgb = "=0.8.53"
webp = "=0.3.1"
serde = { version = "=1.0.229", features = ["derive"] }
serde_json = "=1.0.151"

[package]
name = "ocr_facade"
version = "0.1.0"
edition = "2021"
publish = false

[dependencies]
image = "=0.25.10"
ocrs = "=0.13.1"
rten = "=0.26.0"
ext-php-rs = "=0.16.1"

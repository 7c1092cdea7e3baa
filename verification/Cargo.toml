[package]
name = "snakian_kernel"
version = "0.1.0"
edition = "2021"
publish = false

[dependencies]
pc-keyboard = "*"
bootloader_api = "*"

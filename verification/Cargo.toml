[package]
name = "tiff_reader"
version = "0.1.0"
edition = "2021"
publish = false

[dependencies]
anyhow = "1"
memmap2 = "0.9"
num-traits = "0.2"
rand = "0.9"

[package]
name = "lyretune"
version = "0.1.0"
edition = "2021"
publish = false

[dependencies]
cpal = "0.15"
egui_plot = "0.29"
num-complex = "0.4"
rustfft = "6"

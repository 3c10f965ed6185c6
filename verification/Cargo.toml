[package]
name = "button_board"
version = "0.1.0"
edition = "2021"
publish = false

[dependencies]
serialport = { version = "=4.10.1", default-features = false }
thiserror = "=1.0.69"
is_executable = "=1.0.6"
serde = { version = "=1.0.229", features = ["derive"] }
serde_json = "=1.0.154"
clap = "=2.34.0"
color-eyre = "=0.6.5"
anyhow = "=1.0.104"
pixels-graphics-lib = "=0.7.4"
buffer-graphics-lib = "0.9"
winit = "=0.27.5"
winit_input_helper = "=0.13.0"

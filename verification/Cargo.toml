[package]
name = "lynx_runner"
version = "0.1.0"
edition = "2021"
publish = false

[dependencies]
kanal = "=0.1.1"
clap = { version = "=4.6.7", features = ["derive"] }
macroquad = "=0.4.16"
miniquad = "=0.4.11"
log = "*"
env_logger = "*"

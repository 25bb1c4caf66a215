[package]
name = "yeahboy"
version = "0.1.0"
edition = "2021"
publish = false

[dependencies]
anyhow = "=1.0.104"
egui = "=0.15.0"
egui_glium = { version = "=0.15.0", default-features = false, features = ["epi"] }
epi = "=0.15.0"
glium = "=0.30.2"
image = { version = "=0.23.14", default-features = false, features = ["png"] }
log = "=0.4.34"
simple_logger = "=1.16.0"
structopt = "=0.3.26"

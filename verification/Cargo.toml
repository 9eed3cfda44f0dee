[package]
name = "rusty_engine"
version = "0.1.0"
edition = "2021"
publish = false

[dependencies]
egui = "0.21"
egui-miniquad = "0.14"
flexi_logger = "0.25"
gilrs = "0.10"
glam = "0.24"
image = { version = "0.24", default-features = false, features = ["png"] }
log = "0.4"
miniquad = "0.3"

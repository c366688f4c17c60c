[package]
name = "pegasus"
version = "0.1.0"
edition = "2021"
publish = false

[dependencies]
env_logger = "0.3"
gfx = "0.12"
glutin = "0.21"
specs = "0.7"

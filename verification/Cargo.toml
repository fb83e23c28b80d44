[package]
name = "rboy"
version = "0.1.0"
edition = "2021"
publish = false

[dependencies]
clap = "4"
cpal = "0.15"
glium = "0.34"
piccolo = "0.3"
winit = "0.29"

[package]
name = "turbine"
version = "0.1.0"
edition = "2021"
publish = false

[dependencies]
fnv = "=1.0.7"
vecmath = "=1.0.0"
rayon = "=1.12.0"
camera_controllers = "=0.36.0"
wavefront_obj = "=11.0.0"

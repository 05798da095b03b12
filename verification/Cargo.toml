[package]
name = "lighthouse"
version = "0.1.0"
edition = "2021"
publish = false

[dependencies]
nalgebra-glm = "=0.21.0"
bytemuck = "=1.25.2"
ogl33 = "=0.2.0"
beryllium = "=0.13.3"
device_query = "=4.0.1"
image = "=0.25.10"
common_macros = "=0.1.1"

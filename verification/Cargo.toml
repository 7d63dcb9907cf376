[package]
name = "azurescens"
version = "0.1.0"
edition = "2021"
publish = false

[dependencies]
time = "0.1"
glium = "*"
image = "*"
tunapanel = "*"
serde = "*"
serde_derive = "*"

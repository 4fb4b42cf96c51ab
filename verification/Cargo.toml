[package]
name = "prop_editor"
version = "0.1.0"
edition = "2021"
publish = false

[dependencies]
egui_glium = "0.20"
glam = "0.24"
glium = "0.32"

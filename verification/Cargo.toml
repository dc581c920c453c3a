[package]
name = "command_buffer"
version = "0.1.0"
edition = "2021"
publish = false

[dependencies]
bracket-color = "*"
bracket-geometry = "*"
object-pool = "*"

[package]
name = "simple_command"
version = "0.1.0"
edition = "2021"
publish = false

[dependencies]
shell-words = "*"

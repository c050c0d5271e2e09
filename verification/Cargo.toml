[package]
name = "cli_prompt"
version = "0.1.0"
edition = "2021"
publish = false

[dependencies]
termios = "*"
rpassword = "*"
tempfile = "*"

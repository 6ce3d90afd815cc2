[package]
name = "romodoro"
version = "0.1.0"
edition = "2021"
publish = false

[dependencies]
humantime = "*"
chrono = "*"
clap = "*"
ctrlc = "*"
termion = "*"

[package]
name = "rdev"
version = "0.1.0"
edition = "2021"
publish = false

[dependencies]
flate2 = "1"
pico-args = "0.5"
inotify = "0.10"
color-eyre = "0.6"
env_logger = "*"
log = "0.4"

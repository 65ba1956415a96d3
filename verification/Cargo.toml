[package]
name = "hcsr04"
version = "0.1.0"
edition = "2021"

[dependencies]
gpio-cdev = "*"
libc = "0.2"

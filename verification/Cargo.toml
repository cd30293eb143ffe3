[package]
name = "runcmd"
version = "0.1.0"
edition = "2021"
publish = false

[dependencies]
execute = "=0.3.0"

[dev-dependencies]
temp-env = "*"

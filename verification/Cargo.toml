[package]
name = "solo2_check"
version = "0.1.0"
edition = "2021"
publish = false

[dependencies]
anyhow = "=1.0.104"
lpc55 = "=0.2.1"
rusb = "*"
pcsc = "=2.9.0"

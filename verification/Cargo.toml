[package]
name = "mag_display"
version = "0.1.0"
edition = "2021"
publish = false

[dependencies]
cortex-m-rt = "*"
lsm303agr = "=0.2.2"
microbit-v2 = "=0.13.0"
rtt-target = "*"

[package]
name = "gpu_monitor"
version = "0.1.0"
edition = "2021"
publish = false

[dependencies]
nvml-wrapper = "*"
crossterm = "0.25"
ctrlc = "*"
tui = "0.19"

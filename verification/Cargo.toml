[package]
name = "cpufetch"
version = "0.1.0"
edition = "2021"
publish = false

[dependencies]
raw-cpuid = "*"
num_cpus = "*"
clap = { version = "*", features = ["derive"] }
colored = "*"
crossterm = "*"
procfs = "*"
sysinfo = "*"
serde = { version = "*", features = ["derive"] }
serde_json = "*"
once_cell = "*"

[package]
name = "kprobes"
version = "0.1.0"
edition = "2021"
publish = false

[dependencies]
clap = { version = "3.2", features = ["derive"] }
dircpy = "*"
once_cell = "1"
os-xtask-utils = "*"
trapframe = "*"

[package]
name = "sidecar_hasher"
version = "0.1.0"
edition = "2021"

[dependencies]
ring = "*"
md5 = "*"
data-encoding = "*"
clap = "*"
walkdir = "*"
num_cpus = "*"
task_queue = "*"

[package]
name = "lines"
version = "0.1.0"
edition = "2021"
publish = false

[dependencies]
bytecount = "*"
clap = "*"
num_cpus = "*"
rayon = "*"

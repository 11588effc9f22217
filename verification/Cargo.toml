[package]
name = "iris"
version = "0.1.0"
edition = "2021"
publish = false

[dependencies]
png = "*"
sobol_burley = "*"
num_cpus = "*"
minifb = "*"

[package]
name = "otlp_tracer"
version = "0.1.0"
edition = "2021"
publish = false

[dependencies]
hex = "0.4"
http = "*"
http-client = "*"
log = "0.4"
miniserde = "0.1"
once_cell = "1"
rand = "0.8"
smol = "*"
time = { version = "0.3", features = ["formatting"] }

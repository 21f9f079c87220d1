[package]
name = "torus"
version = "0.1.0"
edition = "2021"
publish = false

[dependencies]
colored = "=3.1.1"
cxx = "=1.0.205"
log = "=0.4.34"
simple_logger = "=5.2.0"

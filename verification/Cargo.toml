[package]
name = "neural_net"
version = "0.1.0"
edition = "2021"
publish = false

[dependencies]
rand = "0.8"
const_soft_float = "*"
rustc_apfloat = "*"
libm = "0.2"
serde_json = "1"

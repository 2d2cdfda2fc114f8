[package]
name = "disparity"
version = "0.1.0"
edition = "2021"
publish = false

[dependencies]
rayon = "=1.12.0"
png = "=0.18.1"
rustc_apfloat = "=0.2.3"
const_soft_float = "=0.1.4"

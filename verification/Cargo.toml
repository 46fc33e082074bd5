[package]
name = "q_calc"
version = "0.1.0"
edition = "2021"
publish = false

[dependencies]
rustc_apfloat = "*"
clipboard = "0.5"
confy = "*"
serde = "1"
serde_derive = "1"

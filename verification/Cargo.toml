[package]
name = "lambent"
version = "0.1.0"
edition = "2021"
publish = false

[dependencies]
rustc_apfloat = "*"
libm = "*"
bytemuck = "*"
anyhow = "*"
clap = { version = "*", features = ["derive"] }
thiserror = "*"
wasm-bindgen = "*"

[package]
name = "d_size_measure"
version = "0.1.0"
edition = "2021"
publish = false

[dependencies]
serde = { version = "*", features = ["derive"] }
tari_template_lib = "*"

[package]
name = "orbitbake"
version = "0.1.0"
edition = "2021"
publish = false

[dependencies]
gif = "*"
glam = { version = "*", features = ["serde"] }
pretty = "*"
raqote = { version = "*", default-features = false }
rayon = "*"
rustfft = "*"
serde = { version = "*", features = ["derive"] }
toml = "*"

[package]
name = "rmtree"
version = "0.1.0"
edition = "2021"
publish = false

[dependencies]
clap = { version = "=4.6.7", features = ["derive"] }
clap-cargo = "=0.19.0"
rayon = "=1.12.0"
rm_rf = "=0.6.2"

[dev-dependencies]
symlink = "*"
tempfile = "=3.27.0"

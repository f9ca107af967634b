[package]
name = "install_loader"
version = "0.1.0"
edition = "2021"
publish = false

[dependencies]
fs2 = "0.4"
progress-streams = "1"
tar = "0.4"
tempfile = "=3.3.0"
xz2 = "0.1"

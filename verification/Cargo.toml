[package]
name = "tinydfr"
version = "0.1.0"
edition = "2021"
publish = false

[dependencies]
anyhow = "*"
cairo-rs = "*"
chrono = "=0.4.45"
drm = "=0.15.0"
icon-loader = "*"
image = "*"
input = "*"
input-linux = "=0.7.1"
input-linux-sys = "=0.9.0"
libc = "*"
librsvg = "*"
nix = { version = "*", features = ["poll"] }
privdrop = "*"
serde = { version = "*", features = ["derive"] }
toml = "*"

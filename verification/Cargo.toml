[package]
name = "tabterm"
version = "0.1.0"
edition = "2021"
publish = false

[dependencies]
anyhow = "1"
clipboard = "0.5"
crossfont = "0.1"
die = "*"
glutin = "0.24"
libc = "0.2"
log = "0.4"
nix = "0.26"
pad = "0.1"
serde_json = "1"

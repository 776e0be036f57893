[package]
name = "tiny4linux"
version = "0.1.0"
edition = "2021"
publish = false

[dependencies]
clap = { version = "*", features = ["derive"] }
clap_complete = "*"
dialoguer = { version = "*", features = ["fuzzy-select"] }
errno = "*"
glob = "*"
hex = "*"
hexdump = "*"
nix = { version = "*", features = ["ioctl"] }
sys-locale = "*"
thiserror = "*"

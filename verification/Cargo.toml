[package]
name = "ravana"
version = "0.1.0"
edition = "2021"
publish = false

[dependencies]
sequence_trie = "0.3"
libnotcurses-sys = "3"
nix = "0.26"
toml = "0.5"
serde = { version = "1", features = ["derive"] }
anyhow = "1"
log = "0.4"
env_logger = "0.10"

[package]
name = "pssh_rs"
version = "0.1.0"
edition = "2021"
publish = false

[dependencies]
anyhow = "1"
ansi_term = "0.12"
ssh2 = "0.9"
structopt = "0.3"
toml = "0.8"

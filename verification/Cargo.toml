[package]
name = "sauce"
version = "0.1.0"
edition = "2021"
publish = false

[dependencies]
ansi_term = "=0.12.1"
anyhow = "=1.0.104"
atty = "=0.2.14"
clap = { version = "=4.6.7", features = ["derive"] }
comfy-table = "=7.2.2"
etcetera = "=0.11.0"
glob = "=0.3.4"
indexmap = "=2.14.2"
itertools = "=0.15.0"
snailquote = "=0.3.1"
subprocess = "=1.2.1"
toml_edit = "=0.25.17"

[package]
name = "rndiag"
version = "0.1.0"
edition = "2021"
publish = false

[dependencies]
anyhow = "=1.0.104"
argh = "=0.1.19"
crossterm = "=0.29.0"
csv = "=1.4.0"
dns-lookup = "=4.0.2"
ping = "=0.10.0"
pnet = "=0.35.0"
ratatui = "=0.30.2"
regex = "=1.13.1"
tokio = { version = "=1.54.1", features = ["full"] }
warp = { version = "=0.4.3", features = ["server"] }

[package]
name = "composable_build"
version = "0.1.0"
edition = "2021"
publish = false

[dependencies]
parity-wasm = "=0.42.2"
pwasm-utils = "=0.18.2"
wat = "=1.262.0"
regex-syntax = "=0.8.11"
anyhow = "=1.0.104"
colored = "=2.2.0"
which = "=4.4.2"
serde = { version = "=1.0.229", features = ["derive"] }
serde_json = "=1.0.154"
cargo_metadata = "=0.12.3"
semver = "=1.0.28"
toml = "=0.5.11"
url = "=2.5.8"
structopt = "=0.3.26"
log = "=0.4.34"
cargo-xbuild = "=0.6.6"

[dev-dependencies]
regex = "=1.13.1"

[package]
name = "pier"
version = "0.1.4"
edition = "2021"
publish = false

[dependencies]
dirs = "=2.0.2"
lazy_static = "=1.5.1"
prettytable-rs = "=0.10.0"
scrawl = "=1.1.0"
serde = { version = "=1.0.229", features = ["derive"] }
snafu = "=0.6.10"
structopt = "=0.3.26"
toml = "=0.5.11"

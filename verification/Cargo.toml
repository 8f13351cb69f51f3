[package]
name = "run_in_roblox"
version = "0.3.0"
edition = "2021"
publish = false

[dependencies]
anyhow = "1"
colored = "2"
env_logger = "0.7"
fs-err = "2"
futures = "0.1"
hyper = "0.12"
log = "0.4"
rand = "0.8"
rbx_dom_weak = "1"
rbx_xml = "0.11"
serde = { version = "1", features = ["derive"] }
serde_json = "1"
structopt = "0.3"
tempfile = "3"

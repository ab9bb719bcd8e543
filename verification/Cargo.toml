[package]
name = "banc"
version = "0.0.1"
edition = "2021"
publish = false

[dependencies]
anyhow = "=1.0.104"
async-trait = "=0.1.92"
fs4 = "=0.13.1"
heapless = { version = "=0.8.0", features = ["serde"] }
libtest-mimic = "=0.8.2"
postcard = { version = "=1.1.3", features = ["use-std"] }
postcard-rpc = { version = "=0.12.1", features = ["use-std", "raw-nusb"] }
postcard-schema = { version = "=0.2.5", features = ["derive", "heapless-v0_8"] }
probe-rs = "=0.32.0"
serde = { version = "=1.0.229", features = ["derive"] }
serde_json = "=1.0.154"
thiserror = "=2.0.21"
tokio = { version = "=1.54.1", features = ["full"] }
toml = "=0.9.12"

[package]
name = "lnradar"
version = "0.1.0"
edition = "2021"
publish = false

[dependencies]
anyhow = "=1.0.104"
bitcoin = "=0.32.102"
cln-plugin = "0.5"
cln-rpc = "0.5"
hex = "=0.4.3"
lightning-invoice = "=0.34.1"
lightning-types = "=0.3.5"
log = "=0.4.35"
rand = "=0.10.3"
serde = { version = "=1.0.229", features = ["derive"] }
serde_json = "=1.0.154"
thiserror = "=2.0.21"
tokio = { version = "=1.54.1", features = ["full"] }

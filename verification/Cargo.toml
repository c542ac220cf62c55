[package]
name = "cloudflare_deprecation_reverse_proxy"
version = "0.1.0"
edition = "2021"
publish = false

[dependencies]
async-trait = "=0.1.92"
bytes = "=1.12.1"
env_logger = "=0.11.11"
log = "=0.4.34"
pingora = { version = "=0.4.0", default-features = false, features = ["lb", "proxy"] }
pingora-error = "=0.4.0"
pingora-http = "=0.4.0"
serde_json = "=1.0.154"

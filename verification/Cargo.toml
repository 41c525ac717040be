[package]
name = "dns_proxy"
version = "0.1.0"
edition = "2021"
publish = false

[dependencies]
url = "=2.5.8"
hickory-proto = "=0.25.2"
hickory-resolver = { version = "=0.25.2", features = ["tokio", "https-ring", "tls-ring", "quic-ring", "h3-ring", "webpki-roots"] }
hickory-server = "=0.25.2"
tokio = { version = "=1.54.1", features = ["net", "sync", "rt", "macros", "time"] }
async-trait = "=0.1.92"
log = "=0.4.34"
serde = { version = "=1.0.229", features = ["derive"] }
futures = "=0.3.34"
time = { version = "=0.3.55", features = ["formatting"] }
network-interface = "*"
winapi = { version = "0.3", features = ["iphlpapi", "minwindef", "winerror"] }
wmi = "*"

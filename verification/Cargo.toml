[package]
name = "monoterminal-master"
version = "0.1.0"
edition = "2021"
publish = false

[dependencies]
anyhow = "1"
async-trait = "0.1"
bytemuck = "1"
bytes = "1"
chrono = "0.4"
ed25519-dalek = "2"
fontdue = "0.8"
futures-util = "0.3"
hex = "0.4"
open = "5"
pollster = "0.3"
prometheus = { version = "0.13", default-features = false }
prost = "0.12"
rand = "0.8"
rcgen = "0.11"
reqwest = { version = "0.11", default-features = false, features = ["json", "rustls-tls"] }
rustls = "0.21"
rustls-pemfile = "1"
serde = { version = "1", features = ["derive"] }
serde_json = "1"
thiserror = "1"
tokio = { version = "1", features = ["full"] }
tokio-rustls = "0.24"
tokio-tungstenite = "0.20"
tracing = "0.1"
uuid = { version = "1", features = ["v4"] }

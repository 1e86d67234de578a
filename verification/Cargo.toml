[package]
name = "meili"
version = "0.1.0"
edition = "2021"
publish = false

[dependencies]
serde = { version = "1", features = ["derive"] }
serde_bare = "0.5"
serde_bytes = "0.11"
toml = "0.5"
clap = { version = "3", features = ["derive"] }
tokio = { version = "1", features = ["full"] }
tokio-rustls = "0.23"
rustls = "0.20"
rustls-pemfile = "1"
tokio-tungstenite = "0.17"
futures-util = "0.3"
sha2 = "0.8"
authenticator = "0.3"
pcsc = "2"
openpgp-card = "*"
openpgp-card-pcsc = "*"
pyo3 = "0.16"
gtk4 = "0.4"
glib = "0.15"
winapi = { version = "0.3", features = ["wincon"] }
winsafe = "*"
cacao = "*"

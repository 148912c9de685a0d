[package]
name = "churro"
version = "0.1.0"
edition = "2021"
publish = false

[dependencies]
async-trait = "*"
buffa = "*"
connectrpc = "*"
futures-util = { version = "0.3", features = ["sink"] }
http = "1"
reqwest = { version = "0.12", default-features = false, features = ["json", "rustls-tls"] }
serde = { version = "1", features = ["derive"] }
serde_json = "1"
thiserror = "*"
tokio = { version = "1", features = ["rt-multi-thread", "macros", "signal"] }
tokio-tungstenite = { version = "*", features = ["rustls-tls-webpki-roots"] }
webpki-roots = "*"

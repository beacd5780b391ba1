[package]
name = "trumpet"
version = "0.1.0"
edition = "2021"
publish = false

[dependencies]
aes-gcm = "=0.10.3"
ahash = "=0.8.12"
axum = { version = "=0.8.9", features = ["ws"] }
chrono = { version = "=0.4.45", features = ["serde"] }
clap = { version = "=4.6.7", features = ["derive"] }
futures-util = "=0.3.34"
libc = "=0.2.191"
nix = { version = "=0.29.0", features = ["signal", "user"] }
opendal = { version = "=0.53.3", default-features = false, features = ["services-fs"] }
prost-types = "=0.13.5"
reqwest = { version = "=0.12.28", default-features = false, features = ["json"] }
rmcp = { version = "=0.8.5", features = ["server"] }
rmp-serde = "=1.3.1"
serde = { version = "=1.0.229", features = ["derive"] }
serde_json = "=1.0.154"
thiserror = "=2.0.21"
tokio = { version = "=1.54.1", features = ["full"] }
tokio-stream = { version = "=0.1.19", features = ["sync"] }
tokio-util = "=0.7.20"
toml = "=0.8.23"
tonic = "=0.13.1"
tracing = "=0.1.44"
tracing-subscriber = { version = "=0.3.23", features = ["env-filter", "json"] }
tree-sitter-language-pack = "*"
url = "=2.5.8"
uuid = { version = "=1.29.0", features = ["v4"] }

[dev-dependencies]
tempfile = "=3.27.0"

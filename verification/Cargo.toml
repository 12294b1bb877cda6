[package]
name = "flowtype"
version = "0.1.0"
edition = "2021"
publish = false

[dependencies]
base64 = "=0.22.1"
p256 = { version = "=0.13.2", features = ["ecdsa", "pkcs8"] }
ecdsa = { version = "=0.16.9", default-features = false, features = ["verifying", "der"] }
sha2 = "=0.10.9"
unicode-segmentation = "=1.13.3"
rand = "=0.9.5"
image = { version = "0.25", default-features = false, features = ["png", "jpeg"] }
serde = { version = "=1.0.229", features = ["derive"] }
serde_json = "=1.0.154"
uuid = { version = "=1.29.0", features = ["v4"] }
tokio = { version = "=1.54.1", features = ["rt-multi-thread", "net", "sync", "time", "macros", "io-util"] }
tokio-rustls = { version = "=0.26.6", default-features = false, features = ["ring", "tls12"] }
rustls = { version = "=0.23.46", default-features = false, features = ["ring", "std", "tls12"] }
tokio-tungstenite = "=0.30.0"
futures-util = { version = "=0.3.34", features = ["sink"] }
mdns-sd = "=0.21.7"
rcgen = "0.14"

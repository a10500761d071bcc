[package]
name = "systembridge"
version = "0.1.0"
edition = "2021"
publish = false

[dependencies]
serde_json = "=1.0.154"
uuid = { version = "=1.29.0", features = ["v4"] }
serde = { version = "=1.0.229", features = ["derive"] }
log = "=0.4.34"
fern = "=0.7.1"
humantime = "=2.4.0"
platform-dirs = "=0.3.0"
ctrlc = "=3.5.2"
tokio = { version = "=1.54.1", features = ["rt-multi-thread", "macros", "time", "sync"] }
rocket = { version = "=0.5.2", default-features = false, features = ["json"] }
rocket_ws = "=0.1.1"
reqwest = { version = "=0.12.28", default-features = false }
notify = { version = "=8.2.0", default-features = false }
futures-util = { version = "=0.3.34", features = ["sink"] }
http = "=1.5.0"
tokio-websockets = { version = "=0.13.3", features = ["client", "sha1_smol", "fastrand"] }
machine-uid = "=0.6.0"
battery = "=0.7.8"
pyo3 = { version = "=0.21.2", features = ["auto-initialize"] }

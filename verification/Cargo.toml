[package]
name = "json_rpc_client"
version = "0.1.0"
edition = "2021"
publish = false

[dependencies]
alloy-json-rpc = "=2.5.0"
alloy-rpc-client = "=2.5.0"
alloy-transport = "=2.5.0"
anyhow = "1"
arrow = { version = "*", default-features = false }
backoff = "=0.4.0"
duration-str = { version = "0.21", default-features = false, features = ["serde"] }
futures = "0.3"
futures-core = "0.3"
itertools = "0.15"
querystring = "1.1"
serde = { version = "1", features = ["derive"] }
serde-inline-default = "1"
serde_json = { version = "=1.0.154", features = ["raw_value"] }
serde_qs = "=1.1.3"
thiserror = "2"
tokio = { version = "1", features = ["sync", "time"] }
tokio-util = "0.7"
tower = "0.5"
url = "=2.5.8"

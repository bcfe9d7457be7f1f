[package]
name = "nacos_naming_client"
version = "0.1.0"
edition = "2021"
publish = false

[dependencies]
rand = "=0.8.8"
flate2 = "=1.1.10"
serde = { version = "*", features = ["derive"] }
serde_json = "*"
serde_repr = "*"
reqwest = { version = "*", default-features = false, features = ["query", "form"] }
tokio = { version = "*", features = ["rt-multi-thread", "macros", "sync", "net", "time", "fs"] }
uuid = { version = "*", features = ["v4"] }
local_ipaddress = "*"
local-ip-address = "*"
log = "*"
env_logger = "*"
thiserror = "*"
lazy_static = "*"
prometheus = { version = "*", default-features = false }
crossbeam = "*"
tonic = "*"
tower = { version = "*", features = ["discover"] }

[package]
name = "mix_agent"
version = "0.1.0"
edition = "2021"
publish = false

[dependencies]
access-json = "*"
chrono = "*"
config = "*"
cron = "*"
evalexpr = "*"
lazy_static = "*"
local_ipaddress = "*"
log = "*"
log4rs = "*"
os_info = "*"
reqwest = { version = "*", default-features = false, features = ["blocking", "json"] }
serde = { version = "*", features = ["derive"] }
serde_json = "*"
serde_yaml = "*"
sys-info = "*"
sysinfo = "*"
systemstat = "*"

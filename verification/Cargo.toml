[package]
name = "zenoh_backend_influxdb"
version = "0.1.0"
edition = "2021"
publish = false

[dependencies]
async-std = "=1.12.0"
async-trait = "=0.1.92"
base64 = "=0.21.7"
chrono = { version = "=0.4.31", default-features = false, features = ["clock", "std"] }
env_logger = { version = "=0.10.2", default-features = false }
futures = { version = "=0.3.34", default-features = false, features = ["std"] }
git-version = "=0.3.9"
influxdb2 = { version = "=0.4.5", default-features = false, features = ["rustls"] }
influxdb2-structmap = "=0.2.0"
lazy_static = "=1.5.1"
log = "=0.4.35"
serde_json = "=1.0.154"
url = "=2.4.1"
uuid = { version = "=1.4.1", features = ["v4"] }
zenoh = { version = "=0.10.0-rc", default-features = false }
zenoh-core = "=0.10.0-rc"
zenoh-util = "=0.10.0-rc"
zenoh_backend_traits = "=0.10.0-rc"

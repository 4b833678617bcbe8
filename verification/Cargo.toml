[package]
name = "fastmssql"
version = "0.1.0"
edition = "2021"
publish = false

[dependencies]
bb8 = "=0.9.1"
bb8-tiberius = "=0.16.0"
chrono = "=0.4.45"
memchr = "=2.8.3"
once_cell = "=1.21.4"
parking_lot = "=0.12.5"
reqwest = { version = "=0.13.5", default-features = false, features = ["json"] }
serde_json = "=1.0.151"
serde_urlencoded = "=0.7.1"
tiberius = { version = "=0.12.3", features = ["chrono"] }
tokio = { version = "=1.53.2", features = ["rt-multi-thread", "net", "time", "process", "macros", "io-util"] }
tokio-util = { version = "=0.7.19", features = ["compat"] }
uuid = "=1.27.0"

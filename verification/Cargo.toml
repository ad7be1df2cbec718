[package]
name = "input_monitor"
version = "0.1.0"
edition = "2021"
publish = false

[dependencies]
chrono = "=0.4.45"
uuid = { version = "=1.27.0", features = ["v4"] }
percent-encoding = "=2.3.2"
mysql = { version = "=28.0.3", default-features = false, features = ["default-rust"] }
tokio = { version = "*", features = ["rt-multi-thread", "time", "macros"] }
rdev = "*"
tray-item = "*"
dotenv = "*"

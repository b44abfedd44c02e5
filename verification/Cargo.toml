[package]
name = "leo-status-driver"
version = "0.1.0"
edition = "2021"
publish = false

[dependencies]
clap = { version = "4", features = ["derive"] }
hidapi = { version = "2", default-features = false, features = ["linux-native-basic-udev"] }
humantime = "2"
prometheus = "*"
serde = { version = "1", features = ["derive"] }
serde_json = "1"
thiserror = "*"
tiny_http = "*"

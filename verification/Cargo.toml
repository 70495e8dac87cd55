[package]
name = "wheel_bridge"
version = "0.1.0"
edition = "2021"
publish = false

[dependencies]
abs = "=0.1.1"
console = "=0.16.6"
eyre = "=0.6.14"
futures-util = { version = "=0.3.34", features = ["sink"] }
hidapi = { version = "=2.6.7", default-features = false, features = ["linux-native-basic-udev"] }
if_chain = "=1.0.3"
tokio = { version = "=1.54.1", features = ["full"] }
tokio-tungstenite = "=0.30.0"
tokio-util = "=0.7.20"

[package]
name = "cedarling_bridge"
version = "0.1.0"
edition = "2021"
publish = false

[dependencies]
jni = "0.21"
jsonwebtoken = "9"
serde_json = "1"
thiserror = "1"
url = "2"

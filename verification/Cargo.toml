[package]
name = "drogue_cloud_testing"
version = "0.1.0"
edition = "2021"
publish = false

[dependencies]
anyhow = "1"
async-std = "1"
async-trait = "0.1"
base64 = "0.13"
bytes = "1"
coap-lite = "0.11"
drogue-client = "0.11"
fantoccini = "0.19"
futures = "0.3"
log = "0.4"
openssl = "0.10"
paho-mqtt = "0.12"
regex = "1"
reqwest = { version = "0.11", features = ["json"] }
rumqttc = "0.20"
serde = { version = "1", features = ["derive"] }
serde_json = "1"
test-context = "0.1"
tokio = { version = "1", features = ["full"] }
tokio-dtls-stream-sink = "0.6"
tokio-openssl = "0.6"
tokio-tungstenite = "0.18"
tokio-util = { version = "0.7", features = ["codec"] }
url = "2"
uuid = { version = "1", features = ["v4"] }

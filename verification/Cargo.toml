[package]
name = "botstream"
version = "0.1.0"
edition = "2021"
publish = false

[dependencies]
anyhow = "1"
async-native-tls = "0.3"
async-std = "1"
async-tungstenite = { version = "0.8", features = ["async-std-runtime", "async-native-tls"] }
derive_more = "0.99"
force-send-sync = "1"
futures = "0.3"
glib = "0.10"
gstreamer = "0.16"
gstreamer-app = "0.16"
gstreamer-sdp = "0.16"
gstreamer-video = "0.16"
gstreamer-webrtc = "0.16"
libc = "0.2"
rand = "0.7"
serde = "1"
serde_derive = "1"
serde_json = "1"
structopt = "0.3"
tungstenite = { version = "0.11", default-features = false }

[package]
name = "vas_got_vision"
version = "0.1.0"
edition = "2021"
publish = false

[dependencies]
handlebars = "=5.1.2"
serde_json = "=1.0.154"
serde = { version = "=1.0.229", features = ["derive"] }
anyhow = "=1.0.104"
log = "0.4"
log4rs = "1"
chrono = "0.4"
tts = "0.26"
opencv = "0.88"
zmq = "0.10"
rmp-serde = "1"
bounded-vec-deque = "0.1"

[package]
name = "voip_bridge"
version = "0.1.0"
edition = "2021"
publish = false

[dependencies]
anyhow = "=1.0.104"
async-channel = "=2.5.0"
async-lock = "=3.5.0"
async-trait = "=0.1.92"
bytes = "=1.12.1"
futures = "=0.3.34"
getrandom = "=0.3.4"
image = { version = "=0.25.10", default-features = false, features = ["jpeg", "png", "webp", "gif"] }
js-sys = "=0.3.107"
log = "=0.4.35"
serde = { version = "=1.0.229", features = ["derive"] }
serde_json = "=1.0.154"
serde-wasm-bindgen = "=0.6.5"
symphonia = { version = "=0.6.1", features = ["all"] }
thiserror = "=2.0.21"
tracing = "=0.1.44"
tracing-core = "=0.1.36"
tsify = "=0.5.8"
wacore = { version = "=0.7.0", default-features = false, features = ["voip", "voip-mlow"] }
wacore-binary = { version = "=0.7.0", default-features = false }
wasm-bindgen = "=0.2.130"
wasm-bindgen-futures = "=0.4.80"
web-sys = { version = "=0.3.107", features = ["ReadableStream", "ReadableStreamDefaultReader"] }
whatsapp-rust = { version = "=0.7.0", default-features = false }

[dev-dependencies]
flate2 = "=1.1.10"

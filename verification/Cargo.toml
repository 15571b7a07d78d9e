[package]
name = "tfslite"
version = "0.1.0"
edition = "2021"
publish = false

[dependencies]
async-trait = "=0.1.92"
chrono = { version = "=0.4.45", features = ["serde"] }
console_error_panic_hook = "*"
cylinder = { version = "=0.3.1", features = ["key-load"] }
futures = "=0.3.34"
gloo-timers = { version = "*", features = ["futures"] }
gloo-utils = { version = "=0.3.0", features = ["serde"] }
js-sys = "=0.3.106"
rand = "=0.8.8"
redb = "=1.5.2"
rexie = "=0.5.0"
reqwest = { version = "=0.11.27", default-features = false, features = ["json"] }
serde = { version = "=1.0.229", features = ["derive"] }
serde_json = "=1.0.154"
serde_repr = "=0.1.21"
sha2 = "=0.10.9"
tokio = { version = "=1.54.1", features = ["rt-multi-thread", "macros", "fs", "io-util", "time"] }
uuid = { version = "=1.29.0", features = ["v4", "serde"] }
wasm-bindgen = "=0.2.129"
wasm-streams = "*"
web-sys = { version = "=0.3.106", features = ["Blob", "File", "ReadableStream"] }

[dev-dependencies]
hex = "=0.4.3"
protobuf = "=2.28.0"

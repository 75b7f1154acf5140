[package]
name = "host_lib"
version = "0.1.0"
edition = "2021"
publish = false

[dependencies]
anyhow = "=1.0.104"
async-channel = "=2.5.0"
async-trait = "=0.1.92"
futures = "=0.3.34"
http = "=1.5.0"
http-body-util = "=0.1.5"
hyper = { version = "=1.12.0", features = ["server", "http1"] }
hyper-util = { version = "=0.1.21", features = ["tokio"] }
mongodb = { version = "=3.9.1", default-features = false, features = ["compat-3-0-0", "rustls-tls"] }
serde_json = "=1.0.154"
tokio = { version = "=1.54.1", features = ["macros", "rt-multi-thread", "sync", "time", "net"] }
tonic = "=0.13.1"
tower = "=0.5.3"
wasmtime = "=45.0.3"
wasmtime-wasi = "=45.0.3"
wasmtime-wasi-http = "=45.0.3"

[package]
name = "async_executors"
version = "0.1.0"
edition = "2021"
publish = false

[dependencies]
futures-task = "=0.3.34"
futures-util = { version = "=0.3.34", features = ["channel"] }
futures-executor = { version = "=0.3.34", features = ["thread-pool"] }
futures-channel = "=0.3.34"
tokio = { version = "=1.54.1", features = ["rt", "rt-multi-thread"] }
async-std = { version = "=1.13.2", features = ["unstable"] }
wasm-bindgen-futures = "=0.4.79"

[dev-dependencies]
futures = { version = "=0.3.34", features = ["thread-pool"] }
futures-timer = "=3.0.4"

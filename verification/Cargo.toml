[package]
name = "model_in_browser"
version = "0.1.0"
edition = "2021"
publish = false

[dependencies]
candle-core = "=0.11.0"
candle-nn = "=0.11.0"
candle-transformers = "=0.11.0"
tokenizers = { version = "*", default-features = false, features = ["unstable_wasm"] }
serde = { version = "*", features = ["derive"] }
serde_json = "*"
wasm-bindgen = "*"
js-sys = "*"
console_error_panic_hook = "*"
tokio = { version = "*", features = ["full"] }
axum = "*"
tower = { version = "*", features = ["util"] }
tower-http = { version = "*", features = ["cors", "fs"] }
clap = { version = "*", features = ["derive"] }
tracing = "*"
tracing-subscriber = "*"

[dev-dependencies]
safetensors = "*"

[package]
name = "wavs_frontend"
version = "0.1.0"
edition = "2021"
publish = false

[dependencies]
alloy-consensus = "=0.12.6"
alloy-contract = "=0.12.6"
alloy-json-rpc = "=0.12.6"
alloy-primitives = "=0.8.26"
alloy-provider = { version = "=0.12.6", default-features = false, features = ["reqwest"] }
alloy-signer = "=0.12.6"
alloy-signer-local = { version = "=0.12.6", features = ["mnemonic"] }
alloy-sol-macro = "=0.8.26"
alloy-sol-types = "=0.8.26"
alloy-transport = "=0.12.6"
anyhow = "=1.0.104"
async-trait = "=0.1.92"
const-hex = "=1.15.0"
dominator = "=0.5.38"
futures = "=0.3.34"
futures-signals = "=0.3.34"
gloo-timers = { version = "=0.3.0", features = ["futures"] }
js-sys = "=0.3.106"
reqwest = { version = "=0.12.28", default-features = false, features = ["json"] }
serde = { version = "=1.0.219", features = ["derive"] }
serde-wasm-bindgen = "=0.6.5"
serde_json = "=1.0.143"
toml = "0.8"
tracing = "=0.1.44"
wasm-bindgen = "=0.2.129"
wasm-bindgen-futures = "=0.4.79"
web-sys = { version = "=0.3.106", features = ["Window", "Performance", "Url", "Location", "console"] }

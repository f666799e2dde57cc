[package]
name = "agent_session"
version = "0.1.0"
edition = "2021"
publish = false

[dependencies]
serde_json = "1"
serde = { version = "1", features = ["derive"] }
yew = { version = "*", features = ["csr"] }
gloo-net = "*"
log = "0.4"
wasm-bindgen-futures = "0.4"
web-sys = { version = "0.3", features = ["HtmlInputElement"] }

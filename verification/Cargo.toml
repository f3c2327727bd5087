[package]
name = "connect5"
version = "0.1.0"
edition = "2021"
publish = false

[dependencies]
actix-files = "0.5"
actix-session = "0.4"
actix-web = "3"
anyhow = "1"
diesel = { version = "1.4", features = ["sqlite", "r2d2"] }
dotenv = "0.15"
itertools = "0.10"
log = "0.4"
serde = { version = "1", features = ["derive"] }
serde_json = "1"
uuid = { version = "0.8", features = ["serde", "v4"] }
wasm-bindgen = "0.2"
wasm-bindgen-futures = "0.4"
wasm-logger = "0.2"
web-sys = { version = "0.3", features = ["Request", "RequestInit", "RequestMode", "Response", "Window"] }
yew = "0.18"
yew-router = "0.15"

[package]
name = "rusty_chat_sync"
version = "0.1.0"
edition = "2021"
publish = false

[dependencies]
base64 = "=0.22.1"
serde_json = "=1.0.154"
uuid = { version = "=1.29.0", features = ["v4"] }
serde = { version = "=1.0.229", features = ["derive"] }
futures = "=0.3.34"
gloo-net = "=0.7.0"
gloo-timers = { version = "=0.4.0", features = ["futures"] }
instant = "=0.1.13"
wasm-bindgen-futures = "=0.4.79"
web-sys = { version = "=0.3.106", features = ["console", "HtmlInputElement", "HtmlElement", "HtmlTextAreaElement", "KeyboardEvent", "Window", "Document", "Element"] }
js-sys = "=0.3.106"
wasm-bindgen = "=0.2.129"
once_cell = "=1.21.4"
gloo = "*"
yew = { version = "*", features = ["csr"] }
reqwest = { version = "*", default-features = false, features = ["json"] }
chrono = "0.4"

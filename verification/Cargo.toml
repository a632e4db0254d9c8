[package]
name = "foxhole"
version = "0.1.0"
edition = "2021"
publish = false

[dependencies]
gloo-storage = "0.2"
serde = { version = "1", features = ["derive"] }
web-sys = { version = "0.3", features = ["HtmlInputElement", "console"] }
yew = { version = "0.20", features = ["csr"] }

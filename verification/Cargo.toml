[package]
name = "datecalc"
version = "0.1.0"
edition = "2021"
publish = false

[dependencies]
chrono = "0.4"
leptos = { version = "0.4", features = ["csr"] }
wasm-bindgen = "0.2"
web-sys = { version = "0.3", features = ["HtmlElement"] }

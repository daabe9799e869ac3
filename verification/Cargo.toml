[package]
name = "topos"
version = "0.1.0"
edition = "2021"
publish = false

[dependencies]
html-escape = "=0.2.15"
chrono = "=0.4.45"
anyhow = "=1.0.104"
axum = "=0.8.9"
dotenv = "=0.15.0"
once_cell = "=1.21.4"
r2d2 = "=0.8.10"
redis = { version = "=1.8.1", features = ["r2d2"] }
reqwest = { version = "=0.12.28", default-features = false, features = ["json", "rustls-tls"] }
serde = { version = "=1.0.229", features = ["derive"] }
serde_json = "=1.0.154"
tokio = { version = "=1.54.1", features = ["full"] }
tokio-cron-scheduler = "=0.15.1"
tower-http = { version = "=0.6.11", features = ["cors"] }
tracing = "=0.1.44"
tracing-subscriber = "=0.3.23"
yew = { version = "0.21", features = ["csr"] }
gloo-net = "*"
gloo-timers = "*"
gloo-console = "*"
wasm-bindgen-futures = "0.4"
web-sys = { version = "0.3", features = ["HtmlInputElement", "KeyboardEvent", "MouseEvent", "InputEvent", "Url", "UrlSearchParams", "Window", "History", "Location"] }

[dev-dependencies]
regex = "=1.13.1"

[package]
name = "todo_app"
version = "0.1.0"
edition = "2021"
publish = false

[dependencies]
axum = "0.7"
console_error_panic_hook = "0.1"
dotenvy = "0.15"
leptos = { version = "0.6", features = ["ssr"] }
leptos_axum = "0.6"
leptos_config = "0.6"
leptos_meta = { version = "0.6", features = ["ssr"] }
leptos_router = { version = "0.6", features = ["ssr"] }
sea-orm = { version = "1", default-features = false, features = ["macros", "sqlx-postgres", "runtime-tokio-rustls"] }
serde = { version = "1", features = ["derive"] }
server_fn = "0.6"
tokio = { version = "1", features = ["macros", "rt-multi-thread", "net"] }
tower-http = { version = "0.5", features = ["fs"] }
tracing = "0.1"
tracing-subscriber = "0.3"
wasm-bindgen = "0.2"

[package]
name = "study_core"
version = "0.1.0"
edition = "2021"
publish = false

[dependencies]
bevy = { version = "0.8", default-features = false, features = ["bevy_asset", "render", "png"] }
bevy_asset_loader = { version = "0.12" }
bevy_common_assets = { version = "0.3", features = ["json"] }
rand = "0.8"
serde = { version = "1", features = ["derive"] }
tokio = { version = "1", features = ["macros", "rt-multi-thread"] }
warp = "0.3"
mysql_async = "*"
dotenv = "0.15"
log = "0.4"
pretty_env_logger = "0.4"
wasm-bindgen = "0.2"
wasm-bindgen-futures = "0.4"
web-sys = { version = "0.3", features = ["Headers", "Request", "RequestInit", "RequestMode", "Response", "Window"] }

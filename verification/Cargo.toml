[package]
name = "proton"
version = "0.1.0"
edition = "2021"
publish = false

[dependencies]
async_zip = { version = "0.0.17", features = ["tokio", "tokio-fs", "deflate"] }
futures = "0.3"
hex = "0.4"
log = "0.4"
once_cell = "1"
os_info = "3"
reqwest = { version = "0.12", default-features = false, features = ["json", "stream", "rustls-tls"] }
ring = "0.17"
serde = { version = "1", features = ["derive"] }
thiserror = "1"
tokio = { version = "1", features = ["full"] }

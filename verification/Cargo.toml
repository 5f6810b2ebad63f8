[package]
name = "square_eater"
version = "0.1.0"
edition = "2021"
publish = false

[dependencies]
macroquad = "*"
axum = "*"
tokio = { version = "*", features = ["full"] }
tower-http = { version = "*", features = ["fs"] }
serde = { version = "*", features = ["derive"] }

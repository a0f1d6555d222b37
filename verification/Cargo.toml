[package]
name = "buzzer_control_webserver"
version = "0.1.0"
edition = "2021"
publish = false

[dependencies]
argh = "=0.1.19"
axum = "=0.7.9"
axum-server = { version = "=0.7.3", features = ["tls-rustls"] }
chrono = "=0.4.45"
max7219 = "=0.4.2"
rppal = { version = "=0.17.1", features = ["hal"] }
serde = { version = "=1.0.229", features = ["derive"] }
tokio = { version = "=1.54.1", features = ["full"] }
tower-http = { version = "=0.5.2", features = ["fs"] }

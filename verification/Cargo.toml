[package]
name = "usercamera_pose"
version = "0.1.0"
edition = "2021"
publish = false

[dependencies]
axum = { version = "=0.8.9", features = ["ws"] }
env_logger = "=0.11.11"
log = "=0.4.35"
png = "=0.18.1"
serde = { version = "=1.0.229", features = ["derive"] }
serde_json = "=1.0.154"
spout-rs = "=0.2.0"
thiserror = "=2.0.21"
tokio = { version = "=1.54.1", features = ["full"] }
tower-http = { version = "=0.6.11", features = ["cors", "normalize-path"] }
utoipa = "=5.5.0"
utoipa-swagger-ui = { version = "=9.0.2", features = ["axum", "vendored"] }
vrchat_osc = "=2.2.0"
windows = { version = "=0.58.0", features = ["Win32_Foundation", "Win32_Graphics_Direct3D", "Win32_Graphics_Direct3D11", "Win32_Graphics_Dxgi", "Win32_Graphics_Dxgi_Common"] }

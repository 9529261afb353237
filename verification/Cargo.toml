[package]
name = "quelana"
version = "0.1.0"
edition = "2021"
publish = false

[dependencies]
serde = { version = "=1.0.229", features = ["derive"] }
serde_json = "=1.0.154"
shell-words = "=1.1.1"
anyhow = "=1.0.104"
clap = { version = "=4.6.7", features = ["derive"] }
dotenv = "=0.15.0"
env_logger = { version = "=0.11.11", default-features = false }
log = "=0.4.35"
reqwest = { version = "=0.12.28", default-features = false, features = ["json", "rustls-tls"] }
tokio = { version = "=1.54.1", features = ["rt-multi-thread", "macros"] }
tempfile = "=3.27.0"
hound = "=3.5.1"
cpal = "=0.18.2"
rdev = "=0.5.3"
tray-item = "=0.10.0"
eframe = { version = "=0.37.0", default-features = false, features = ["glow", "x11"] }
windows = { version = "=0.62.2", features = ["Win32_Foundation", "Win32_UI_WindowsAndMessaging"] }

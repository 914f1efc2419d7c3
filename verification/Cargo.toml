[package]
name = "ebcapture"
version = "0.1.0"
edition = "2021"
publish = false

[dependencies]
anyhow = "=1.0.104"
chrono = { version = "=0.4.45", default-features = false, features = ["clock"] }
clap = { version = "=4.6.7", features = ["derive"] }
enigo = "=0.0.14"
env_logger = { version = "=0.11.11", default-features = false }
futures-util = "=0.3.34"
image = { version = "=0.25.10", default-features = false, features = ["png", "bmp"] }
indicatif = "=0.17.11"
log = "=0.4.34"
printpdf = { version = "=0.6.0", default-features = false }
scrap = "=0.5.0"
thiserror = "=1.0.69"
tokio = { version = "=1.54.1", features = ["rt-multi-thread", "macros", "time", "fs", "sync"] }
url = "=2.5.8"
walkdir = "=2.5.0"
webp = "0.3"
winapi = { version = "=0.3.9", features = ["winuser", "wingdi", "windef", "processthreadsapi"] }
yt-dlp = "=1.3.4"

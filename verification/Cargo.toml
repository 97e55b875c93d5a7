[package]
name = "ghoststream"
version = "0.1.0"
edition = "2021"
publish = false

[dependencies]
anyhow = "*"
ashpd = "*"
async-trait = "*"
clap = { version = "*", features = ["derive"] }
crossbeam-channel = "*"
ffmpeg-next = "*"
libspa = "*"
libspa-sys = "*"
pipewire = "*"
serde = { version = "*", features = ["derive"] }
thiserror = "*"
tokio = { version = "*", features = ["rt-multi-thread", "sync", "time", "macros", "signal"] }
tracing = "*"
tracing-subscriber = { version = "*", features = ["env-filter"] }

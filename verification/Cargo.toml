[package]
name = "orttaai-core"
version = "0.1.0"
edition = "2021"
publish = false

[dependencies]
serde = { version = "=1.0.229", features = ["derive"] }
serde_json = "=1.0.154"
directories = "=6.0.0"
thiserror = "=2.0.21"
x11rb = "=0.14.0"
global-hotkey = "=0.9.0"
ureq = { version = "=3.5.1", features = ["json"] }
rusqlite = { version = "=0.41.1", features = ["bundled"] }
tokio = { version = "=1.54.1", features = ["rt-multi-thread", "macros", "time", "sync"] }
ashpd = { version = "=0.13.13", features = ["global_shortcuts", "remote_desktop", "screencast"] }
futures-util = "=0.3.34"
cpal = "=0.18.2"
rubato = "=0.16.2"
whisper-rs = "=0.16.0"
enigo = "=0.6.1"
tracing = "=0.1.44"
tracing-subscriber = { version = "=0.3.23", features = ["env-filter"] }

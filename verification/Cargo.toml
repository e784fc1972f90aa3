[package]
name = "syndicode"
version = "0.1.0"
edition = "2021"
publish = false

[dependencies]
time = { version = "=0.3.55", features = ["formatting", "macros"] }
uuid = { version = "=1.29.1", features = ["v7"] }
ratatui = "=0.29.0"
crossterm = { version = "=0.28.1", features = ["event-stream"] }
tui-textarea = "=0.7.0"
tokio = { version = "=1.54.1", features = ["rt-multi-thread", "macros", "sync", "time"] }
anyhow = "=1.0.104"
thiserror = "=2.0.21"
tracing = "=0.1.44"
futures = "=0.3.34"
serde = { version = "=1.0.229", features = ["derive"] }
bon = "=3.10.3"
geo = "*"
rstar = "*"
rand = "0.9"
rayon = "*"
indicatif = "*"
arrow = { version = "*", default-features = false }
parquet = { version = "*", default-features = false, features = ["arrow", "snap"] }

[package]
name = "rem"
version = "0.1.0"
edition = "2021"
publish = false

[dependencies]
ra_ap_syntax = "=0.0.328"
ra_ap_ide = "=0.0.328"
ra_ap_hir = "=0.0.328"
ra_ap_load-cargo = "=0.0.328"
ra_ap_project_model = "=0.0.328"
ra_ap_vfs = "=0.0.328"
serde = { version = "=1.0.229", features = ["derive"] }
serde_json = "=1.0.154"
clap = { version = "=4.6.7", features = ["derive", "env"] }
anyhow = "=1.0.104"
thiserror = "=2.0.21"
tracing = "=0.1.44"
tracing-subscriber = { version = "=0.3.23", features = ["env-filter", "json"] }

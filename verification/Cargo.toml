[package]
name = "siranga"
version = "0.1.0"
edition = "2021"
publish = false

[dependencies]
bytes = "1"
clap = { version = "4", features = ["derive"] }
color-eyre = { version = "0.6", default-features = false }
crossterm = "0.28"
dotenvy = "0.15"
futures = "0.3"
git-version = "0.3"
http-body-util = "0.1"
hyper = { version = "1", features = ["full"] }
hyper-util = { version = "0.1", features = ["tokio"] }
ldap3 = { version = "0.11", default-features = false }
leon = "3"
pin-project-lite = "0.2"
rand = "0.8"
ratatui = "=0.29.0"
reqwest = { version = "0.12", default-features = false }
russh = "0.52"
thiserror = "2"
tokio = { version = "1", features = ["full"] }
tokio-util = { version = "0.7", features = ["rt"] }
tracing = "0.1"
tracing-subscriber = { version = "0.3", features = ["env-filter", "json"] }
unicode-width = "0.2"

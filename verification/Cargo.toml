[package]
name = "zellij_tab_config"
version = "0.1.0"
edition = "2021"
publish = false

[dependencies]
kdl = "4"
dirs = "5"
ratatui = "*"
crossterm = "*"
palette = "0.7"
serde = { version = "1", features = ["derive"] }
serde_json = "1"
thiserror = "2"
ureq = { version = "2", features = ["json"] }

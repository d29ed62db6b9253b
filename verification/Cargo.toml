[package]
name = "ratoms"
version = "0.1.0"
edition = "2021"
publish = false

[dependencies]
csv = "*"
ratatui = "*"
serde = { version = "*", features = ["derive"] }
thiserror = "*"
tui-big-text = "*"

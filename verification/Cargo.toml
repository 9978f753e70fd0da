[package]
name = "sanger_rename"
version = "0.1.0"
edition = "2021"
publish = false

[dependencies]
anyhow = "*"
clap = { version = "*", features = ["derive"] }
crossterm = "*"
ratatui = { version = "*", features = ["widget-calendar"] }
time = "*"

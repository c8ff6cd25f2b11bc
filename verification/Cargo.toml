[package]
name = "daily_planner"
version = "0.1.0"
edition = "2021"
publish = false

[dependencies]
backtrace = "*"
chrono = "*"
clap = "*"
crossterm = "*"
fs-err = "*"
serde_json = "*"
ureq = "*"

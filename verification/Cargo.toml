[package]
name = "cpg"
version = "0.1.0"
edition = "2021"
publish = false

[dependencies]
crossterm = "0.27"
ratatui = "0.25"
thiserror = "1"
tracing = "0.1"
tracing-appender = "0.2"
tracing-subscriber = "0.3"
tui-input = "0.8"

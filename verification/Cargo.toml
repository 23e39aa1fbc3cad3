[package]
name = "parallely"
version = "0.1.0"
edition = "2021"
publish = false

[dependencies]
ansi-to-tui = "=7.0.0"
clap = { version = "=4.6.7", features = ["derive"] }
color-eyre = "=0.6.5"
crossterm = { version = "=0.28.1", features = ["event-stream"] }
futures = "=0.3.34"
libc = "=0.2.191"
ratatui = "=0.29.0"
textwrap = "=0.16.4"
thiserror = "=1.0.69"
tokio = { version = "=1.54.1", features = ["full"] }
tokio-stream = { version = "=0.1.19", features = ["time"] }
tracing = "=0.1.44"
tracing-appender = "=0.2.5"
tracing-subscriber = { version = "=0.3.23", features = ["env-filter"] }
windows-sys = { version = "=0.59.0", features = ["Win32_Foundation", "Win32_System_Console", "Win32_System_Threading"] }

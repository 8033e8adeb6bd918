[package]
name = "netbird-hawk"
version = "0.1.0"
edition = "2021"
publish = false

[dependencies]
chrono = { version = "0.4", features = ["serde"] }
chrono-tz = "0.10"
serde = { version = "1", features = ["derive"] }
serde_json = "1"
uuid = { version = "1", features = ["v4", "serde"] }
clap = { version = "4", features = ["derive"] }
tokio = { version = "1", features = ["rt-multi-thread", "macros", "process", "time", "signal", "io-util"] }
async-trait = "0.1"
tempfile = "3"
directories = "6"
fs2 = "0.4"
which = "*"
thiserror = "2"
tracing = "0.1"
tracing-appender = "0.2"
tracing-subscriber = { version = "0.3", features = ["json", "env-filter"] }
nix = { version = "*", features = ["process"] }
windows-sys = { version = "*", features = ["Win32_System_Threading", "Win32_Foundation"] }

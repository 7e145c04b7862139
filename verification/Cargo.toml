[package]
name = "procmon"
version = "0.1.0"
edition = "2021"
publish = false

[dependencies]
chrono = "0.4"
clap = { version = "4", features = ["derive", "env"] }
plotters = "0.3"
serde = { version = "1", features = ["derive"] }
sysinfo = "0.29"

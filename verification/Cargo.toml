[package]
name = "cosmic_quake_term"
version = "0.1.0"
edition = "2021"
publish = false

[dependencies]
clap = { version = "4", features = ["derive"] }
serde = { version = "1", features = ["derive"] }
nix = { version = "*", features = ["signal", "process", "poll"] }
tokio = { version = "1", features = ["sync", "time", "rt"] }
futures = "0.3"
tracing = "0.1"
tracing-subscriber = { version = "0.3", features = ["env-filter"] }
tracing-journald = "*"
wayland-client = "*"
wayland-protocols = { version = "*", features = ["client", "staging"] }
smithay-client-toolkit = { version = "*", default-features = false }
cosmic-protocols = "*"
cosmic-client-toolkit = "*"

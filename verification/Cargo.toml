[package]
name = "rockey_hockey"
version = "0.1.0"
edition = "2021"
publish = false

[dependencies]
anyhow = "1"
clap = { version = "4", default-features = false, features = ["std", "derive", "help", "usage", "error-context"] }
env_logger = { version = "*", default-features = false }
log = "0.4"
nalgebra = { version = "*", default-features = false, features = ["std"] }
piston_window = "*"
serde = { version = "1", features = ["derive"] }
serde_json = "1"
serialport = { version = "4", default-features = false }
tiny_http = "*"

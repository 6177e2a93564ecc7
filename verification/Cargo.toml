[package]
name = "shutdown_scheduler"
version = "0.1.0"
edition = "2021"
publish = false

[dependencies]
chrono = "=0.4.45"
slint = { version = "1", default-features = false, features = ["std", "compat-1-2", "backend-qt"] }
system_shutdown = "=4.1.0"

[package]
name = "desk_scripts"
version = "0.1.0"
edition = "2021"
publish = false

[dependencies]
chrono = "=0.4.45"
clap = { version = "=4.6.7", features = ["derive", "env"] }
color-eyre = "=0.6.5"
dirs = "=7.0.0"
regex = "=1.13.1"
swayipc = "=4.0.0"

[dev-dependencies]
serde_json = "=1.0.154"

[package]
name = "rusty_borg"
version = "0.1.0"
edition = "2021"
publish = false

[dependencies]
borgbackup = "*"
chrono = "0.4"
chrono-tz = "*"
clap = { version = "4", features = ["derive"] }
cron = "*"
daemonize = "0.5"
env_logger = "*"
log = "0.4"
rand = "0.8"
ssh2 = "*"
tempfile = "3"

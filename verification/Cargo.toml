[package]
name = "serverbee_deploy"
version = "0.1.0"
edition = "2021"
publish = false

[dependencies]
actix-web = { version = "4", default-features = false, features = ["macros"] }
auto-launch = "0.4"
clap = { version = "4", features = ["derive"] }
log = "0.4"
log4rs = "1"
serde = { version = "1", features = ["derive"] }
serde_json = "1"
sled = "0.34"
sysinfo = "0.28"

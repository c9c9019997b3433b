[package]
name = "libreconnect"
version = "0.1.0"
edition = "2021"
publish = false

[dependencies]
rand = "=0.8.8"
serde = { version = "=1.0.229", features = ["derive"] }
serde_json = "=1.0.154"
thiserror = "=1.0.69"
tokio = { version = "=1.54.1", features = ["net", "io-util", "time", "rt-multi-thread", "macros", "sync", "fs"] }
clap = { version = "=4.6.7", features = ["derive"] }
mdns-sd = "=0.11.5"
hostname = "=0.4.2"
dirs = "=6.0.0"
arboard = { version = "=3.7.0", default-features = false }
enigo = { version = "=0.5.0", default-features = false, features = ["x11rb"] }
notify-rust = "=4.11.7"
battery = "=0.7.8"

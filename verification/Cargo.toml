[package]
name = "pika_backup"
version = "0.1.0"
edition = "2021"
publish = false

[dependencies]
chrono = { version = "0.4", features = ["serde"] }
chronoutil = "0.2"
url = "2"
async-process = "1"
futures = "0.3"
gio = "0.18"
glib = "0.18"
quick-error = "2"
enclose = "1"
serde = { version = "1", features = ["derive"] }
serde_derive = "1"
zxcvbn = "2"
zeroize = "1"

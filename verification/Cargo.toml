[package]
name = "kelidban"
version = "0.1.0"
edition = "2021"
publish = false

[dependencies]
aes-gcm = "=0.11.1"
argon2 = { version = "=0.6.0", features = ["parallel"] }
rand = "=0.10.3"
uuid = { version = "=1.29.1", features = ["v4"] }
chrono = "=0.4.45"
jalali-calendar = "=0.1.2"
crossterm = "=0.29.0"
ratatui = "=0.30.2"
rusqlite = { version = "=0.41.1", features = ["bundled"] }

[package]
name = "annex_pos"
version = "0.1.0"
edition = "2021"
publish = false

[dependencies]
chrono = "0.4"
regex = "1"
argon2 = "0.5"
password-hash = { version = "0.5", features = ["rand_core"] }
rand = "0.8"
log = "0.4"
fern = "0.6"
serde = { version = "1", features = ["derive"] }
thiserror = "1"
rusqlite = { version = "0.31", features = ["bundled"] }
odbc-api = "*"
odbc-sys = "*"
printpdf = "0.7"

[package]
name = "invoicevault"
version = "0.1.0"
edition = "2021"
publish = false

[dependencies]
chrono = "=0.4.45"
base64 = "=0.22.1"
mailparse = "=0.15.0"
serde = { version = "=1.0.229", features = ["derive"] }
serde_json = "=1.0.154"
rusqlite = { version = "=0.31.0", features = ["bundled"] }
zip = { version = "=2.6.1", default-features = false, features = ["deflate"] }
csv = "=1.4.0"
reqwest = { version = "=0.12.28", default-features = false, features = ["blocking", "json", "rustls-tls"] }
rust_xlsxwriter = "*"
dirs = "*"
mime_guess = "2"
image = { version = "0.25", default-features = false, features = ["jpeg", "png"] }
kamadak-exif = "*"

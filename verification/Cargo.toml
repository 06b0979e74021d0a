[package]
name = "rmpc_core"
version = "0.1.0"
edition = "2021"
publish = false

[dependencies]
anyhow = "1"
# The times in a token of rspotify are of this crate.
chrono = { version = "=0.4.45", default-features = false }
crossbeam = "0.8"
itertools = "0.14"
librespot = { version = "=0.8.0", default-features = false, features = ["rustls-tls-webpki-roots"] }
log = "0.4"
parking_lot = "0.12"
ratatui = { version = "0.29", default-features = false }
rspotify = { version = "=0.15.3", default-features = false, features = ["client-ureq", "ureq-rustls-tls"] }
serde = { version = "1", features = ["derive"] }
serde_json = "=1.0.154"
tokio = { version = "1", features = ["rt-multi-thread", "sync"] }
# Only pinned: the build script of librespot-core 0.8.0 does not compile with a later one.
vergen = { version = "=9.0.6", default-features = false }

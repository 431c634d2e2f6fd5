[package]
name = "boilermaker_core"
version = "0.1.0"
edition = "2021"
publish = false

[dependencies]
chrono = "=0.4.45"
clap = { version = "=4.6.7", features = ["derive"] }
color-eyre = "=0.6.5"
dirs = "=7.0.0"
fs_extra = "=1.3.0"
git2 = "=0.21.0"
hex = "=0.4.3"
minijinja = "=2.24.0"
nu-ansi-term = "=0.50.3"
pulldown-cmark = "=0.13.5"
regex = "=1.13.1"
reqwest = { version = "=0.12.28", default-features = false, features = ["rustls-tls"] }
serde = { version = "=1.0.229", features = ["derive"] }
sha2 = "=0.10.9"
sqlx = { version = "=0.8.6", default-features = false, features = ["sqlite", "runtime-tokio"] }
tabled = "=0.22.0"
tokio = { version = "=1.54.1", features = ["rt-multi-thread", "macros"] }
toml = "=1.1.8"
tracing = "=0.1.44"
tracing-error = "=0.2.1"
tracing-subscriber = { version = "=0.3.23", features = ["env-filter"] }
unicode-truncate = "=3.0.0"
walkdir = "=2.5.0"

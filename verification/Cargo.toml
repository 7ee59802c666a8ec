[package]
name = "kicad_gateway"
version = "0.1.0"
edition = "2021"
publish = false

[dependencies]
ulid = "1"
sha2 = "0.10"
url = "2"
serde_json = "1"
serde = { version = "1", features = ["derive"] }
ed25519-dalek = { version = "2", features = ["rand_core"] }
rand_core = { version = "0.6", features = ["getrandom"] }
time = { version = "0.3", features = ["formatting", "parsing", "serde"] }
toml = "0.8"
dirs = "5"
thiserror = "1"
anyhow = "1"
tokio = { version = "1", features = ["full"] }
keyring = "3"
zeroize = "1"
reqwest = { version = "0.12", default-features = false, features = ["json"] }
clap = { version = "4", features = ["derive"] }
tracing = "0.1"
tracing-subscriber = { version = "0.3", features = ["env-filter"] }
interprocess = { version = "2", features = ["tokio"] }

[package]
name = "champ"
version = "0.1.0"
edition = "2021"
publish = false

[dependencies]
sha3 = "=0.10.9"
argon2 = "=0.4.1"
rand = "=0.8.8"
ed25519-dalek = "=2.2.0"
scylla = "=1.9.0"
anyhow = "=1.0.104"
thiserror = "=1.0.69"
tracing = "=0.1.44"
async-trait = "=0.1.92"
bytes = "=1.12.1"
tokio = { version = "=1.54.1", features = ["net", "sync", "time", "rt", "macros"] }
tokio-util = { version = "=0.7.20", features = ["codec"] }
tokio-stream = "=0.1.19"
libp2p = { version = "=0.56.0", default-features = false }
sea-orm = { version = "=2.0.4", default-features = false, features = ["macros"] }

[dev-dependencies]
prost = "=0.14.4"

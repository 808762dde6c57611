[package]
name = "kasuku"
version = "0.1.0"
edition = "2021"
publish = false

[dependencies]
sqlparser = "=0.63.0"
regex = "=1.13.1"
pulldown-cmark = "0.13"
pulldown-cmark-to-cmark = "=23.0.0"
serde = { version = "=1.0.229", features = ["derive"] }
serde_json = "=1.0.151"
bincode = "=1.3.3"
tokio = { version = "=1.53.2", features = ["full"] }
xtra = "=0.6.0"
async-trait = "=0.1.92"
thiserror = "=1.0.69"

[package]
name = "window_post"
version = "0.1.0"
edition = "2021"
publish = false

[dependencies]
anyhow = "=1.0.104"
bellperson = { version = "=0.27.0", default-features = false }
bincode = "1"
blstrs = "=0.7.1"
env_logger = "=0.11.11"
filecoin-hashers = { version = "=14.1.0", default-features = false }
filecoin-proofs = { version = "=19.1.0", default-features = false }
filecoin-proofs-api = { version = "=19.1.0", default-features = false }
rand = "=0.8.8"
storage-proofs-core = { version = "=19.1.0", default-features = false }
storage-proofs-post = { version = "=19.1.0", default-features = false }

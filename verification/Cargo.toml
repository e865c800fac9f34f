[package]
name = "solana_ledger"
version = "0.1.0"
edition = "2021"
publish = false

[dependencies]
async-trait = "=0.1.92"
base64 = "=0.22.1"
bincode = "=1.3.3"
hidapi = { version = "=2.6.7", default-features = false, features = ["linux-native-basic-udev"] }
log = "=0.4.35"
solana-derivation-path = "=3.0.0"
solana-message = { version = "=3.1.0", features = ["bincode", "serde"] }
solana-offchain-message = "=3.0.0"
solana-remote-wallet = { version = "=4.2.2", default-features = false, features = ["agave-unstable-api", "hidapi"] }
solana-signature = { version = "=3.4.1", features = ["verify"] }
solana-transaction = { version = "=3.1.0", features = ["bincode", "serde"] }
tokio = { version = "=1.54.1", features = ["rt"] }

[dev-dependencies]
solana-keypair = "=3.1.2"
solana-signer = "=3.0.1"

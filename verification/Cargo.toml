[package]
name = "solana-tx-p2p"
version = "0.1.0"
edition = "2021"
publish = false

[dependencies]
bytes = "1"
chrono = { version = "0.4", features = ["serde"] }
futures-util = "0.3"
humantime = "2"
libp2p = { version = "0.57", features = ["ed25519", "floodsub", "mdns", "tcp", "noise", "yamux", "tokio", "macros"] }
rand = "0.8"
serde = { version = "1", features = ["derive"] }
serde_json = "1"
solana-hash = "2"
solana-instruction = { version = "2", features = ["borsh"] }
solana-keypair = "2"
solana-pubkey = "2"
solana-signature = "2"
solana-signer = "2"
solana-transaction = { version = "2", features = ["bincode", "serde"] }
tokio = { version = "1", features = ["macros", "rt-multi-thread", "sync", "time", "signal", "io-std", "io-util"] }

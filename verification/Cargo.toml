[package]
name = "chain_agent"
version = "0.1.0"
edition = "2021"
publish = false

[dependencies]
alloy = { version = "*", default-features = false }
candid = "*"
evm-rpc-canister-types = "*"
ic-cdk = "*"
ic-cdk-timers = "*"
serde = { version = "*", features = ["derive"] }
sol_rpc_types = "*"
solana-instruction = "*"
solana-pubkey = "*"

//! Logic of an on-chain agent that keeps per-chain signing keys, encodes token
//! transfers for an account-model chain and prepares single-hop swaps for a
//! contract-model chain.
//!
//! Nothing here performs a remote call. Every operation that needs one is
//! split into steps: a step returns what has to be sent, and the caller hands
//! the answer to the next step.

pub mod config;
pub mod evm;
pub mod spl;
pub mod state;
pub mod usdc_trx;

pub use config::{
    CommitmentLevel, EcdsaKeyName, Ed25519KeyName, EthereumNetwork, InitArg, SolanaNetwork,
};

//! Configuration choices: networks, key names and the confirmation policy.

use candid::Principal;
use vstd::prelude::*;

verus! {

/// `candid::Principal`, the identifier of a canister. The library stores and
/// returns it and never looks inside.
#[verifier::external_type_specification]
#[verifier::external_body]
pub struct ExPrincipal(Principal);

/// Networks of the contract-model chain.
#[derive(Clone, Copy, Debug, PartialEq, Eq, Structural)]
pub enum EthereumNetwork {
    Mainnet,
    Sepolia,
}

impl Default for EthereumNetwork {
    fn default() -> (network: Self)
        ensures
            network == EthereumNetwork::Sepolia,
    {
        EthereumNetwork::Sepolia
    }
}

/// Threshold ECDSA keys that the signing subsystem offers.
#[derive(Clone, Copy, Debug, PartialEq, Eq, Structural)]
pub enum EcdsaKeyName {
    TestKeyLocalDevelopment,
    TestKey1,
    ProductionKey1,
}

impl Default for EcdsaKeyName {
    fn default() -> (name: Self)
        ensures
            name == EcdsaKeyName::TestKeyLocalDevelopment,
    {
        EcdsaKeyName::TestKeyLocalDevelopment
    }
}

/// Networks of the account-model chain.
#[derive(Clone, Copy, Debug, PartialEq, Eq, Structural)]
pub enum SolanaNetwork {
    Mainnet,
    Devnet,
    Testnet,
}

impl Default for SolanaNetwork {
    fn default() -> (network: Self)
        ensures
            network == SolanaNetwork::Devnet,
    {
        SolanaNetwork::Devnet
    }
}

/// Threshold Ed25519 keys that the signing subsystem offers.
#[derive(Clone, Copy, Debug, PartialEq, Eq, Structural)]
pub enum Ed25519KeyName {
    LocalDevelopment,
    MainnetTestKey1,
    MainnetProdKey1,
}

impl Default for Ed25519KeyName {
    fn default() -> (name: Self)
        ensures
            name == Ed25519KeyName::LocalDevelopment,
    {
        Ed25519KeyName::LocalDevelopment
    }
}

/// How final a block must be before the account-model chain's answers count,
/// from the weakest level to the strongest.
#[derive(Clone, Copy, Debug, PartialEq, Eq, PartialOrd, Ord, Structural)]
pub enum CommitmentLevel {
    /// Processed by a leader; may still be dropped.
    Processed,
    /// In a block with one confirmation.
    Confirmed,
    /// Cannot be rolled back.
    Finalized,
}

impl Default for CommitmentLevel {
    fn default() -> (level: Self)
        ensures
            level == CommitmentLevel::Finalized,
    {
        CommitmentLevel::Finalized
    }
}

/// Providers that answer for the main network of the contract-model chain.
#[derive(Clone, Copy, Debug, PartialEq, Eq, Structural)]
pub enum EthMainnetService {
    Alchemy,
    Llama,
    BlockPi,
    Cloudflare,
    PublicNode,
    Ankr,
}

/// Providers that answer for the Sepolia test network.
#[derive(Clone, Copy, Debug, PartialEq, Eq, Structural)]
pub enum EthSepoliaService {
    Alchemy,
    BlockPi,
    PublicNode,
    Ankr,
    Sepolia,
}

/// The providers to ask on one network; `None` leaves the choice to the RPC
/// service.
#[derive(Clone, Debug, PartialEq, Eq)]
pub enum RpcServices {
    EthMainnet(Option<Vec<EthMainnetService>>),
    EthSepolia(Option<Vec<EthSepoliaService>>),
}

/// Mathematical content of [`RpcServices`].
pub enum RpcServicesView {
    EthMainnet(Option<Seq<EthMainnetService>>),
    EthSepolia(Option<Seq<EthSepoliaService>>),
}

impl View for RpcServices {
    type V = RpcServicesView;

    open spec fn view(&self) -> RpcServicesView {
        match self {
            RpcServices::EthMainnet(Some(providers)) => RpcServicesView::EthMainnet(
                Some(providers@),
            ),
            RpcServices::EthMainnet(None) => RpcServicesView::EthMainnet(None),
            RpcServices::EthSepolia(Some(providers)) => RpcServicesView::EthSepolia(
                Some(providers@),
            ),
            RpcServices::EthSepolia(None) => RpcServicesView::EthSepolia(None),
        }
    }
}

/// The curve of a threshold ECDSA key.
#[derive(Clone, Copy, Debug, PartialEq, Eq, Structural)]
pub enum EcdsaCurve {
    Secp256k1,
}

/// Names a threshold ECDSA key of the signing subsystem.
#[derive(Clone, Debug, PartialEq, Eq)]
pub struct EcdsaKeyId {
    pub curve: EcdsaCurve,
    pub name: String,
}

impl EcdsaKeyName {
    /// The name under which the signing subsystem knows the key.
    pub open spec fn text(self) -> Seq<char> {
        match self {
            EcdsaKeyName::TestKeyLocalDevelopment => "dfx_test_key"@,
            EcdsaKeyName::TestKey1 => "test_key_1"@,
            EcdsaKeyName::ProductionKey1 => "key_1"@,
        }
    }

    pub fn as_str(&self) -> (name: &'static str)
        ensures
            name@ == self.text(),
    {
        match self {
            EcdsaKeyName::TestKeyLocalDevelopment => "dfx_test_key",
            EcdsaKeyName::TestKey1 => "test_key_1",
            EcdsaKeyName::ProductionKey1 => "key_1",
        }
    }
}

impl Ed25519KeyName {
    /// The name under which the signing subsystem knows the key.
    pub open spec fn text(self) -> Seq<char> {
        match self {
            Ed25519KeyName::LocalDevelopment => "dfx_test_key"@,
            Ed25519KeyName::MainnetTestKey1 => "test_key_1"@,
            Ed25519KeyName::MainnetProdKey1 => "key_1"@,
        }
    }

    pub fn as_str(&self) -> (name: &'static str)
        ensures
            name@ == self.text(),
    {
        match self {
            Ed25519KeyName::LocalDevelopment => "dfx_test_key",
            Ed25519KeyName::MainnetTestKey1 => "test_key_1",
            Ed25519KeyName::MainnetProdKey1 => "key_1",
        }
    }
}

/// What the installer may choose. A field left at `None` takes its default.
#[derive(Clone, Copy, Debug, PartialEq, Eq)]
pub struct InitArg {
    pub ethereum_network: Option<EthereumNetwork>,
    pub ecdsa_key_name: Option<EcdsaKeyName>,
    pub sol_rpc_canister_id: Option<Principal>,
    pub solana_network: Option<SolanaNetwork>,
    pub solana_commitment_level: Option<CommitmentLevel>,
    pub ed25519_key_name: Option<Ed25519KeyName>,
}

impl InitArg {
    /// The input that chooses nothing.
    pub open spec fn empty() -> InitArg {
        InitArg {
            ethereum_network: None,
            ecdsa_key_name: None,
            sol_rpc_canister_id: None,
            solana_network: None,
            solana_commitment_level: None,
            ed25519_key_name: None,
        }
    }

    /// Whether every field that has a default is chosen.
    pub open spec fn is_complete(self) -> bool {
        &&& self.ethereum_network is Some
        &&& self.ecdsa_key_name is Some
        &&& self.solana_network is Some
        &&& self.solana_commitment_level is Some
        &&& self.ed25519_key_name is Some
    }
}

impl Default for InitArg {
    fn default() -> (init_arg: Self)
        ensures
            init_arg == InitArg::empty(),
    {
        InitArg {
            ethereum_network: None,
            ecdsa_key_name: None,
            sol_rpc_canister_id: None,
            solana_network: None,
            solana_commitment_level: None,
            ed25519_key_name: None,
        }
    }
}

} // verus!

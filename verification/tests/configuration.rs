use candid::Principal;
use chain_agent::config::{
    CommitmentLevel, EcdsaCurve, EcdsaKeyName, Ed25519KeyName, EthMainnetService,
    EthSepoliaService, EthereumNetwork, InitArg, RpcServices, SolanaNetwork,
};
use chain_agent::state::{init_state, mutate_state, read_state, SignatureScheme, State};
use chain_agent::usdc_trx::init;

fn full_init_arg() -> InitArg {
    InitArg {
        ethereum_network: Some(EthereumNetwork::Mainnet),
        ecdsa_key_name: Some(EcdsaKeyName::ProductionKey1),
        sol_rpc_canister_id: Some(Principal::from_slice(&[0, 0, 0, 0, 2, 0x30, 0, 0xcc, 1, 1])),
        solana_network: Some(SolanaNetwork::Mainnet),
        solana_commitment_level: Some(CommitmentLevel::Confirmed),
        ed25519_key_name: Some(Ed25519KeyName::MainnetProdKey1),
    }
}

#[test]
fn empty_init_gives_the_defaults() {
    let mut state = State::from(full_init_arg());
    init_state(&mut state, InitArg::default());
    assert_eq!(state.ethereum_network(), EthereumNetwork::Sepolia);
    assert_eq!(state.ecdsa_key_id().name, "dfx_test_key");
    assert_eq!(*state.solana_network(), SolanaNetwork::Devnet);
    assert_eq!(state.solana_commitment_level(), CommitmentLevel::Finalized);
    assert_eq!(state.ed25519_key_name(), Ed25519KeyName::LocalDevelopment);
    assert_eq!(state.sol_rpc_canister_id(), None);
    assert_eq!(state, State::default());
}

#[test]
fn default_values_of_each_choice() {
    assert_eq!(EthereumNetwork::default(), EthereumNetwork::Sepolia);
    assert_eq!(EcdsaKeyName::default(), EcdsaKeyName::TestKeyLocalDevelopment);
    assert_eq!(SolanaNetwork::default(), SolanaNetwork::Devnet);
    assert_eq!(Ed25519KeyName::default(), Ed25519KeyName::LocalDevelopment);
    assert_eq!(CommitmentLevel::default(), CommitmentLevel::Finalized);
    let empty = InitArg::default();
    assert_eq!(empty.ethereum_network, None);
    assert_eq!(empty.ecdsa_key_name, None);
    assert_eq!(empty.sol_rpc_canister_id, None);
    assert_eq!(empty.solana_network, None);
    assert_eq!(empty.solana_commitment_level, None);
    assert_eq!(empty.ed25519_key_name, None);
}

#[test]
fn default_commitment_is_the_one_of_the_rpc_types() {
    assert!(matches!(
        sol_rpc_types::CommitmentLevel::default(),
        sol_rpc_types::CommitmentLevel::Finalized
    ));
    assert_eq!(CommitmentLevel::default(), CommitmentLevel::Finalized);
}

#[test]
fn full_init_is_reproduced() {
    let mut state = State::default();
    init_state(&mut state, full_init_arg());
    assert_eq!(state.ethereum_network(), EthereumNetwork::Mainnet);
    assert_eq!(state.ecdsa_key_id().name, "key_1");
    assert_eq!(state.ecdsa_key_id().curve, EcdsaCurve::Secp256k1);
    assert_eq!(
        state.sol_rpc_canister_id(),
        Some(Principal::from_slice(&[0, 0, 0, 0, 2, 0x30, 0, 0xcc, 1, 1]))
    );
    assert_eq!(*state.solana_network(), SolanaNetwork::Mainnet);
    assert_eq!(state.solana_commitment_level(), CommitmentLevel::Confirmed);
    assert_eq!(state.ed25519_key_name(), Ed25519KeyName::MainnetProdKey1);
    assert_eq!(state.cached_public_key(SignatureScheme::Ecdsa), None);
    assert_eq!(state.cached_public_key(SignatureScheme::Ed25519), None);
    assert_eq!(state, State::from(full_init_arg()));
}

#[test]
fn partial_init_defaults_the_rest() {
    let state = State::from(InitArg {
        solana_network: Some(SolanaNetwork::Testnet),
        ..InitArg::default()
    });
    assert_eq!(*state.solana_network(), SolanaNetwork::Testnet);
    assert_eq!(state.ethereum_network(), EthereumNetwork::Sepolia);
    assert_eq!(state.solana_commitment_level(), CommitmentLevel::Finalized);
}

#[test]
fn init_without_input_leaves_the_state() {
    let mut state = State::from(full_init_arg());
    let before = state.clone();
    init(&mut state, None);
    assert_eq!(state, before);
}

#[test]
fn init_with_input_sets_the_state() {
    let mut state = State::default();
    init(&mut state, Some(full_init_arg()));
    assert_eq!(state, State::from(full_init_arg()));
}

#[test]
fn second_init_overwrites_the_first() {
    let mut state = State::default();
    init_state(&mut state, full_init_arg());
    let second = InitArg { ethereum_network: Some(EthereumNetwork::Sepolia), ..InitArg::default() };
    init_state(&mut state, second);
    assert_eq!(state.ethereum_network(), EthereumNetwork::Sepolia);
    assert_eq!(state.ecdsa_key_id().name, "dfx_test_key");
    assert_eq!(state.sol_rpc_canister_id(), None);
}

#[test]
fn key_names_of_the_signing_subsystem() {
    let names = [
        (EcdsaKeyName::TestKeyLocalDevelopment, "dfx_test_key"),
        (EcdsaKeyName::TestKey1, "test_key_1"),
        (EcdsaKeyName::ProductionKey1, "key_1"),
    ];
    for (name, text) in names {
        let state =
            State::from(InitArg { ecdsa_key_name: Some(name), ..InitArg::default() });
        assert_eq!(state.ecdsa_key_id().name, text);
        assert_eq!(name.as_str(), text);
    }
    assert_eq!(Ed25519KeyName::LocalDevelopment.as_str(), "dfx_test_key");
    assert_eq!(Ed25519KeyName::MainnetTestKey1.as_str(), "test_key_1");
    assert_eq!(Ed25519KeyName::MainnetProdKey1.as_str(), "key_1");
}

#[test]
fn rpc_services_follow_the_network() {
    let mainnet = State::from(InitArg {
        ethereum_network: Some(EthereumNetwork::Mainnet),
        ..InitArg::default()
    });
    let sepolia = State::default();
    assert_eq!(mainnet.evm_rpc_services(), RpcServices::EthMainnet(None));
    assert_eq!(sepolia.evm_rpc_services(), RpcServices::EthSepolia(None));
    assert_eq!(
        mainnet.single_evm_rpc_service(),
        RpcServices::EthMainnet(Some(vec![EthMainnetService::PublicNode]))
    );
    assert_eq!(
        sepolia.single_evm_rpc_service(),
        RpcServices::EthSepolia(Some(vec![EthSepoliaService::PublicNode]))
    );
}

#[test]
fn commitment_levels_are_ordered_by_finality() {
    assert!(CommitmentLevel::Processed < CommitmentLevel::Confirmed);
    assert!(CommitmentLevel::Confirmed < CommitmentLevel::Finalized);
}

#[test]
fn read_state_hands_out_what_the_reader_returns() {
    let state = State::from(full_init_arg());
    let network = read_state(&state, |s| s.ethereum_network());
    assert_eq!(network, EthereumNetwork::Mainnet);
    let level = read_state(&state, |s| s.solana_commitment_level());
    assert_eq!(level, CommitmentLevel::Confirmed);
}

#[test]
fn mutate_state_is_seen_by_later_reads() {
    let mut state = State::default();
    let answer = mutate_state(&mut state, |s| {
        init_state(s, full_init_arg());
        42u8
    });
    assert_eq!(answer, 42);
    assert_eq!(read_state(&state, |s| s.ethereum_network()), EthereumNetwork::Mainnet);
    assert_eq!(mutate_state(&mut state, |s| *s.solana_network()), SolanaNetwork::Mainnet);
}

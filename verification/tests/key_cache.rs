use chain_agent::config::{EcdsaKeyName, Ed25519KeyName, InitArg};
use chain_agent::state::{
    get_public_key, lazy_call_ecdsa_public_key, KeyAction, KeyEvent, PublicKeyMaterial,
    PublicKeyRequest, RejectionCode, SignatureScheme, State,
};

fn key(first: u8) -> PublicKeyMaterial {
    PublicKeyMaterial { public_key: vec![first, 2, 3, 4], chain_code: vec![9, 8, 7] }
}

/// One lookup as a caller runs it. Returns the key and how often the
/// subsystem was asked.
fn lookup(
    state: &mut State,
    scheme: SignatureScheme,
    answer: PublicKeyMaterial,
) -> (PublicKeyMaterial, u32) {
    match get_public_key(state, scheme, KeyEvent::Requested) {
        KeyAction::Ready(found) => (found, 0),
        KeyAction::Derive(_) => match get_public_key(state, scheme, KeyEvent::Derived(answer)) {
            KeyAction::Ready(derived) => (derived, 1),
            other => panic!("a derived key must be handed out, not {:?}", other),
        },
        KeyAction::Trap(message) => panic!("{}", message),
    }
}

#[test]
fn first_request_asks_for_the_configured_key_with_an_empty_path() {
    let mut state =
        State::from(InitArg { ecdsa_key_name: Some(EcdsaKeyName::TestKey1), ..InitArg::default() });
    let before = state.clone();
    let action = lazy_call_ecdsa_public_key(&mut state, KeyEvent::Requested);
    assert_eq!(
        action,
        KeyAction::Derive(PublicKeyRequest {
            scheme: SignatureScheme::Ecdsa,
            key_name: "test_key_1".to_string(),
            derivation_path: vec![],
        })
    );
    assert_eq!(state, before);
}

#[test]
fn derived_key_is_cached_and_handed_out() {
    let mut state = State::default();
    let action = lazy_call_ecdsa_public_key(&mut state, KeyEvent::Derived(key(1)));
    assert_eq!(action, KeyAction::Ready(key(1)));
    assert_eq!(state.cached_public_key(SignatureScheme::Ecdsa), Some(key(1)));
    assert_eq!(state.cached_public_key(SignatureScheme::Ed25519), None);
}

#[test]
fn two_lookups_in_sequence_derive_once_and_agree() {
    let mut state = State::default();
    let (first, first_derivations) = lookup(&mut state, SignatureScheme::Ecdsa, key(1));
    let after_first = state.clone();
    let (second, second_derivations) = lookup(&mut state, SignatureScheme::Ecdsa, key(200));
    assert_eq!(first_derivations, 1);
    assert_eq!(second_derivations, 0);
    assert_eq!(first, key(1));
    assert_eq!(second, first);
    assert_eq!(state, after_first);
}

#[test]
fn cached_key_answers_every_later_request() {
    let mut state = State::default();
    lookup(&mut state, SignatureScheme::Ecdsa, key(5));
    for _ in 0..4 {
        let action = lazy_call_ecdsa_public_key(&mut state, KeyEvent::Requested);
        assert_eq!(action, KeyAction::Ready(key(5)));
    }
    assert_eq!(state.cached_public_key(SignatureScheme::Ecdsa), Some(key(5)));
}

#[test]
fn interleaved_lookups_both_derive_and_cache_the_same_key() {
    let mut state = State::default();
    let first = lazy_call_ecdsa_public_key(&mut state, KeyEvent::Requested);
    let second = lazy_call_ecdsa_public_key(&mut state, KeyEvent::Requested);
    assert!(matches!(first, KeyAction::Derive(_)));
    assert!(matches!(second, KeyAction::Derive(_)));
    assert_eq!(first, second);
    let first_done = lazy_call_ecdsa_public_key(&mut state, KeyEvent::Derived(key(7)));
    let cached = state.clone();
    let second_done = lazy_call_ecdsa_public_key(&mut state, KeyEvent::Derived(key(7)));
    assert_eq!(first_done, KeyAction::Ready(key(7)));
    assert_eq!(second_done, KeyAction::Ready(key(7)));
    assert_eq!(state, cached);
}

#[test]
fn schemes_have_separate_caches_and_key_names() {
    let mut state = State::from(InitArg {
        ecdsa_key_name: Some(EcdsaKeyName::ProductionKey1),
        ed25519_key_name: Some(Ed25519KeyName::MainnetTestKey1),
        ..InitArg::default()
    });
    let (ecdsa, _) = lookup(&mut state, SignatureScheme::Ecdsa, key(1));
    let request = get_public_key(&mut state, SignatureScheme::Ed25519, KeyEvent::Requested);
    assert_eq!(
        request,
        KeyAction::Derive(PublicKeyRequest {
            scheme: SignatureScheme::Ed25519,
            key_name: "test_key_1".to_string(),
            derivation_path: vec![],
        })
    );
    let (ed25519, asked) = lookup(&mut state, SignatureScheme::Ed25519, key(2));
    assert_eq!(asked, 1);
    assert_eq!(ecdsa, key(1));
    assert_eq!(ed25519, key(2));
    assert_eq!(state.cached_public_key(SignatureScheme::Ecdsa), Some(key(1)));
    assert_eq!(state.cached_public_key(SignatureScheme::Ed25519), Some(key(2)));
}

#[test]
fn ecdsa_lookup_never_touches_the_other_cache() {
    let mut state = State::default();
    lookup(&mut state, SignatureScheme::Ed25519, key(3));
    lazy_call_ecdsa_public_key(&mut state, KeyEvent::Requested);
    lazy_call_ecdsa_public_key(&mut state, KeyEvent::Derived(key(4)));
    assert_eq!(state.cached_public_key(SignatureScheme::Ed25519), Some(key(3)));
    assert_eq!(state.cached_public_key(SignatureScheme::Ecdsa), Some(key(4)));
}

#[test]
fn refused_derivation_traps_with_code_and_message() {
    let mut state = State::default();
    let before = state.clone();
    let action = lazy_call_ecdsa_public_key(
        &mut state,
        KeyEvent::Rejected { code: RejectionCode::SysFatal, message: "boom".to_string() },
    );
    assert_eq!(
        action,
        KeyAction::Trap(
            "failed to get canister's public key: boom (error code = SysFatal)".to_string()
        )
    );
    assert_eq!(state, before);
}

#[test]
fn refused_derivation_keeps_a_filled_cache() {
    let mut state = State::default();
    lookup(&mut state, SignatureScheme::Ecdsa, key(1));
    let before = state.clone();
    let action = get_public_key(
        &mut state,
        SignatureScheme::Ecdsa,
        KeyEvent::Rejected { code: RejectionCode::CanisterReject, message: String::new() },
    );
    assert_eq!(
        action,
        KeyAction::Trap(
            "failed to get canister's public key:  (error code = CanisterReject)".to_string()
        )
    );
    assert_eq!(state, before);
}

#[test]
fn rejection_codes_print_as_the_platform_names_them() {
    let codes = [
        (RejectionCode::NoError, ic_cdk::api::call::RejectionCode::NoError),
        (RejectionCode::SysFatal, ic_cdk::api::call::RejectionCode::SysFatal),
        (RejectionCode::SysTransient, ic_cdk::api::call::RejectionCode::SysTransient),
        (RejectionCode::DestinationInvalid, ic_cdk::api::call::RejectionCode::DestinationInvalid),
        (RejectionCode::CanisterReject, ic_cdk::api::call::RejectionCode::CanisterReject),
        (RejectionCode::CanisterError, ic_cdk::api::call::RejectionCode::CanisterError),
        (RejectionCode::Unknown, ic_cdk::api::call::RejectionCode::Unknown),
    ];
    for (code, platform) in codes {
        assert_eq!(code.as_str(), format!("{:?}", platform));
    }
}

#[test]
fn initialization_empties_the_caches() {
    let mut state = State::default();
    lookup(&mut state, SignatureScheme::Ecdsa, key(1));
    chain_agent::state::init_state(&mut state, InitArg::default());
    assert_eq!(state.cached_public_key(SignatureScheme::Ecdsa), None);
    assert!(matches!(
        lazy_call_ecdsa_public_key(&mut state, KeyEvent::Requested),
        KeyAction::Derive(_)
    ));
}

#[test]
fn copy_of_a_key_is_the_key() {
    let first = key(9);
    let copy = first.clone();
    assert_eq!(copy, first);
    assert_eq!(copy.public_key, vec![9, 2, 3, 4]);
    assert_eq!(copy.chain_code, vec![9, 8, 7]);
}

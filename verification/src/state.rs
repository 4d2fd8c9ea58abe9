//! The process-wide state: the configuration chosen at initialization and the
//! public keys derived so far.
//!
//! The state is an ordinary value that the caller owns and passes in. Its
//! fields change in two ways only: initialization replaces all of them, and a
//! completed key derivation fills the cache of its scheme.

use crate::config::{
    CommitmentLevel, EcdsaCurve, EcdsaKeyId, EcdsaKeyName, Ed25519KeyName, EthMainnetService,
    EthSepoliaService, EthereumNetwork, InitArg, RpcServices, RpcServicesView, SolanaNetwork,
};
use candid::Principal;
use vstd::prelude::*;
use vstd::std_specs::convert::FromSpecImpl;
use vstd::string::StringExecFns;

verus! {

/// The signature schemes for which the agent keeps a key.
#[derive(Clone, Copy, Debug, PartialEq, Eq, Structural)]
pub enum SignatureScheme {
    Ecdsa,
    Ed25519,
}

/// A public key as the signing subsystem returns it: the key's bytes in the
/// scheme's own encoding, and the chain code from which child keys derive.
#[derive(Debug, PartialEq, Eq)]
pub struct PublicKeyMaterial {
    pub public_key: Vec<u8>,
    pub chain_code: Vec<u8>,
}

/// The canister's ECDSA public key.
pub type EcdsaPublicKey = PublicKeyMaterial;

/// The canister's Ed25519 public key.
pub type Ed25519ExtendedPublicKey = PublicKeyMaterial;

/// Mathematical content of [`PublicKeyMaterial`].
pub struct PublicKeyView {
    pub public_key: Seq<u8>,
    pub chain_code: Seq<u8>,
}

impl View for PublicKeyMaterial {
    type V = PublicKeyView;

    open spec fn view(&self) -> PublicKeyView {
        PublicKeyView { public_key: self.public_key@, chain_code: self.chain_code@ }
    }
}

impl Clone for PublicKeyMaterial {
    fn clone(&self) -> (copy: Self)
        ensures
            copy@ == self@,
    {
        let public_key = self.public_key.clone();
        let chain_code = self.chain_code.clone();
        assert(public_key@ =~= self.public_key@);
        assert(chain_code@ =~= self.chain_code@);
        PublicKeyMaterial { public_key, chain_code }
    }
}

/// View of an optional key.
pub open spec fn key_view(key: Option<PublicKeyMaterial>) -> Option<PublicKeyView> {
    match key {
        Some(key) => Some(key@),
        None => None,
    }
}

/// The configuration and the key caches.
#[derive(Clone, Debug, PartialEq, Eq)]
pub struct State {
    ethereum_network: EthereumNetwork,
    ecdsa_key_name: EcdsaKeyName,
    ecdsa_public_key: Option<EcdsaPublicKey>,
    sol_rpc_canister_id: Option<Principal>,
    solana_network: SolanaNetwork,
    solana_commitment_level: CommitmentLevel,
    ed25519_public_key: Option<Ed25519ExtendedPublicKey>,
    ed25519_key_name: Ed25519KeyName,
}

/// Mathematical content of [`State`].
pub struct StateView {
    pub ethereum_network: EthereumNetwork,
    pub ecdsa_key_name: EcdsaKeyName,
    pub ecdsa_public_key: Option<PublicKeyView>,
    pub sol_rpc_canister_id: Option<Principal>,
    pub solana_network: SolanaNetwork,
    pub solana_commitment_level: CommitmentLevel,
    pub ed25519_public_key: Option<PublicKeyView>,
    pub ed25519_key_name: Ed25519KeyName,
}

impl View for State {
    type V = StateView;

    closed spec fn view(&self) -> StateView {
        StateView {
            ethereum_network: self.ethereum_network,
            ecdsa_key_name: self.ecdsa_key_name,
            ecdsa_public_key: key_view(self.ecdsa_public_key),
            sol_rpc_canister_id: self.sol_rpc_canister_id,
            solana_network: self.solana_network,
            solana_commitment_level: self.solana_commitment_level,
            ed25519_public_key: key_view(self.ed25519_public_key),
            ed25519_key_name: self.ed25519_key_name,
        }
    }
}

impl StateView {
    /// The state right after initialization with `init_arg`: each choice that
    /// was made, the default for each that was not, and empty key caches.
    pub open spec fn from_init_arg(init_arg: InitArg) -> StateView {
        StateView {
            ethereum_network: match init_arg.ethereum_network {
                Some(network) => network,
                None => EthereumNetwork::Sepolia,
            },
            ecdsa_key_name: match init_arg.ecdsa_key_name {
                Some(name) => name,
                None => EcdsaKeyName::TestKeyLocalDevelopment,
            },
            ecdsa_public_key: None,
            sol_rpc_canister_id: init_arg.sol_rpc_canister_id,
            solana_network: match init_arg.solana_network {
                Some(network) => network,
                None => SolanaNetwork::Devnet,
            },
            solana_commitment_level: match init_arg.solana_commitment_level {
                Some(level) => level,
                None => CommitmentLevel::Finalized,
            },
            ed25519_public_key: None,
            ed25519_key_name: match init_arg.ed25519_key_name {
                Some(name) => name,
                None => Ed25519KeyName::LocalDevelopment,
            },
        }
    }

    /// The state before any initialization.
    pub open spec fn initial() -> StateView {
        StateView {
            ethereum_network: EthereumNetwork::Sepolia,
            ecdsa_key_name: EcdsaKeyName::TestKeyLocalDevelopment,
            ecdsa_public_key: None,
            sol_rpc_canister_id: None,
            solana_network: SolanaNetwork::Devnet,
            solana_commitment_level: CommitmentLevel::Finalized,
            ed25519_public_key: None,
            ed25519_key_name: Ed25519KeyName::LocalDevelopment,
        }
    }

    /// The key cached for `scheme`, if one was derived.
    pub open spec fn cached_key(self, scheme: SignatureScheme) -> Option<PublicKeyView> {
        match scheme {
            SignatureScheme::Ecdsa => self.ecdsa_public_key,
            SignatureScheme::Ed25519 => self.ed25519_public_key,
        }
    }

    /// This state with `key` cached for `scheme` and nothing else changed.
    pub open spec fn with_cached_key(
        self,
        scheme: SignatureScheme,
        key: PublicKeyView,
    ) -> StateView {
        match scheme {
            SignatureScheme::Ecdsa => StateView { ecdsa_public_key: Some(key), ..self },
            SignatureScheme::Ed25519 => StateView { ed25519_public_key: Some(key), ..self },
        }
    }

    /// The name of the key that is configured for `scheme`.
    pub open spec fn key_name(self, scheme: SignatureScheme) -> Seq<char> {
        match scheme {
            SignatureScheme::Ecdsa => self.ecdsa_key_name.text(),
            SignatureScheme::Ed25519 => self.ed25519_key_name.text(),
        }
    }

    /// This state without its key caches: what initialization chose.
    pub open spec fn configuration(self) -> StateView {
        StateView { ecdsa_public_key: None, ed25519_public_key: None, ..self }
    }
}

impl Default for State {
    fn default() -> (state: State)
        ensures
            state@ == StateView::initial(),
    {
        State {
            ethereum_network: EthereumNetwork::default(),
            ecdsa_key_name: EcdsaKeyName::default(),
            ecdsa_public_key: None,
            sol_rpc_canister_id: None,
            solana_network: SolanaNetwork::default(),
            solana_commitment_level: CommitmentLevel::default(),
            ed25519_public_key: None,
            ed25519_key_name: Ed25519KeyName::default(),
        }
    }
}

impl FromSpecImpl<InitArg> for State {
    open spec fn obeys_from_spec() -> bool {
        true
    }

    closed spec fn from_spec(init_arg: InitArg) -> State {
        let config = StateView::from_init_arg(init_arg);
        State {
            ethereum_network: config.ethereum_network,
            ecdsa_key_name: config.ecdsa_key_name,
            ecdsa_public_key: None,
            sol_rpc_canister_id: config.sol_rpc_canister_id,
            solana_network: config.solana_network,
            solana_commitment_level: config.solana_commitment_level,
            ed25519_public_key: None,
            ed25519_key_name: config.ed25519_key_name,
        }
    }
}

impl From<InitArg> for State {
    /// A fresh state for the given choices.
    fn from(init_arg: InitArg) -> (state: State)
        ensures
            state@ == StateView::from_init_arg(init_arg),
    {
        State {
            ethereum_network: match init_arg.ethereum_network {
                Some(network) => network,
                None => EthereumNetwork::default(),
            },
            ecdsa_key_name: match init_arg.ecdsa_key_name {
                Some(name) => name,
                None => EcdsaKeyName::default(),
            },
            ecdsa_public_key: None,
            sol_rpc_canister_id: init_arg.sol_rpc_canister_id,
            solana_network: match init_arg.solana_network {
                Some(network) => network,
                None => SolanaNetwork::default(),
            },
            solana_commitment_level: match init_arg.solana_commitment_level {
                Some(level) => level,
                None => CommitmentLevel::default(),
            },
            ed25519_public_key: None,
            ed25519_key_name: match init_arg.ed25519_key_name {
                Some(name) => name,
                None => Ed25519KeyName::default(),
            },
        }
    }
}

impl State {
    /// The identifier of the configured threshold ECDSA key.
    pub fn ecdsa_key_id(&self) -> (key_id: EcdsaKeyId)
        ensures
            key_id.curve == EcdsaCurve::Secp256k1,
            key_id.name@ == self@.ecdsa_key_name.text(),
    {
        EcdsaKeyId {
            curve: EcdsaCurve::Secp256k1,
            name: String::from_str(self.ecdsa_key_name.as_str()),
        }
    }

    pub fn ethereum_network(&self) -> (network: EthereumNetwork)
        ensures
            network == self@.ethereum_network,
    {
        self.ethereum_network
    }

    /// All providers of the configured network, the choice left to the RPC
    /// service.
    pub fn evm_rpc_services(&self) -> (services: RpcServices)
        ensures
            services@ == match self@.ethereum_network {
                EthereumNetwork::Mainnet => RpcServicesView::EthMainnet(None),
                EthereumNetwork::Sepolia => RpcServicesView::EthSepolia(None),
            },
    {
        match self.ethereum_network {
            EthereumNetwork::Mainnet => RpcServices::EthMainnet(None),
            EthereumNetwork::Sepolia => RpcServices::EthSepolia(None),
        }
    }

    /// One provider of the configured network, for calls that must not be
    /// answered twice.
    pub fn single_evm_rpc_service(&self) -> (services: RpcServices)
        ensures
            services@ == match self@.ethereum_network {
                EthereumNetwork::Mainnet => RpcServicesView::EthMainnet(
                    Some(seq![EthMainnetService::PublicNode]),
                ),
                EthereumNetwork::Sepolia => RpcServicesView::EthSepolia(
                    Some(seq![EthSepoliaService::PublicNode]),
                ),
            },
    {
        match self.ethereum_network {
            EthereumNetwork::Mainnet => {
                let mut providers: Vec<EthMainnetService> = Vec::new();
                providers.push(EthMainnetService::PublicNode);
                assert(providers@ =~= seq![EthMainnetService::PublicNode]);
                RpcServices::EthMainnet(Some(providers))
            },
            EthereumNetwork::Sepolia => {
                let mut providers: Vec<EthSepoliaService> = Vec::new();
                providers.push(EthSepoliaService::PublicNode);
                assert(providers@ =~= seq![EthSepoliaService::PublicNode]);
                RpcServices::EthSepolia(Some(providers))
            },
        }
    }

    pub fn ed25519_key_name(&self) -> (name: Ed25519KeyName)
        ensures
            name == self@.ed25519_key_name,
    {
        self.ed25519_key_name
    }

    pub fn solana_network(&self) -> (network: &SolanaNetwork)
        ensures
            *network == self@.solana_network,
    {
        &self.solana_network
    }

    pub fn solana_commitment_level(&self) -> (level: CommitmentLevel)
        ensures
            level == self@.solana_commitment_level,
    {
        self.solana_commitment_level
    }

    pub fn sol_rpc_canister_id(&self) -> (canister_id: Option<Principal>)
        ensures
            canister_id == self@.sol_rpc_canister_id,
    {
        self.sol_rpc_canister_id
    }

    /// The key cached for `scheme`, if one was derived.
    pub fn cached_public_key(&self, scheme: SignatureScheme) -> (key: Option<PublicKeyMaterial>)
        ensures
            key_view(key) == self@.cached_key(scheme),
    {
        let cache = match scheme {
            SignatureScheme::Ecdsa => &self.ecdsa_public_key,
            SignatureScheme::Ed25519 => &self.ed25519_public_key,
        };
        match cache {
            Some(key) => Some(key.clone()),
            None => None,
        }
    }
}

/// Replaces the whole state by a fresh one for `init_arg`.
///
/// Nothing guards against a second call: it resets the configuration and
/// empties the key caches, whatever they held.
pub fn init_state(state: &mut State, init_arg: InitArg)
    ensures
        final(state)@ == StateView::from_init_arg(init_arg),
{
    *state = State::from(init_arg);
}

/// Runs `f` on the state and returns what it returns. `f` cannot change the
/// state.
pub fn read_state<R, F: FnOnce(&State) -> R>(state: &State, f: F) -> (result: R)
    requires
        f.requires((state,)),
    ensures
        f.ensures((state,), result),
{
    f(state)
}

/// Runs `f` with exclusive access to the state and returns what it returns.
/// The state afterwards is the one `f` left.
pub fn mutate_state<F, R>(state: &mut State, f: F) -> (result: R) where
    F: FnOnce(&mut State) -> R,

    requires
        forall|borrow: &mut State| *borrow == *old(state) ==> f.requires((borrow,)),
    ensures
        exists|borrow: &mut State|
            *borrow == *old(state) && *final(borrow) == *final(state) && f.ensures(
                (borrow,),
                result,
            ),
{
    f(state)
}


/// Why the platform refused a call to another canister.
#[derive(Clone, Copy, Debug, PartialEq, Eq, Structural)]
pub enum RejectionCode {
    NoError,
    SysFatal,
    SysTransient,
    DestinationInvalid,
    CanisterReject,
    CanisterError,
    Unknown,
}

impl RejectionCode {
    /// The code's name, as it appears in messages.
    pub open spec fn text(self) -> Seq<char> {
        match self {
            RejectionCode::NoError => "NoError"@,
            RejectionCode::SysFatal => "SysFatal"@,
            RejectionCode::SysTransient => "SysTransient"@,
            RejectionCode::DestinationInvalid => "DestinationInvalid"@,
            RejectionCode::CanisterReject => "CanisterReject"@,
            RejectionCode::CanisterError => "CanisterError"@,
            RejectionCode::Unknown => "Unknown"@,
        }
    }

    pub fn as_str(&self) -> (name: &'static str)
        ensures
            name@ == self.text(),
    {
        match self {
            RejectionCode::NoError => "NoError",
            RejectionCode::SysFatal => "SysFatal",
            RejectionCode::SysTransient => "SysTransient",
            RejectionCode::DestinationInvalid => "DestinationInvalid",
            RejectionCode::CanisterReject => "CanisterReject",
            RejectionCode::CanisterError => "CanisterError",
            RejectionCode::Unknown => "Unknown",
        }
    }
}

/// What to ask of the signing subsystem.
#[derive(Clone, Debug, PartialEq, Eq)]
pub struct PublicKeyRequest {
    pub scheme: SignatureScheme,
    pub key_name: String,
    pub derivation_path: Vec<Vec<u8>>,
}

/// Mathematical content of [`PublicKeyRequest`].
pub struct PublicKeyRequestView {
    pub scheme: SignatureScheme,
    pub key_name: Seq<char>,
    pub derivation_path: Seq<Seq<u8>>,
}

impl View for PublicKeyRequest {
    type V = PublicKeyRequestView;

    open spec fn view(&self) -> PublicKeyRequestView {
        PublicKeyRequestView {
            scheme: self.scheme,
            key_name: self.key_name@,
            derivation_path: self.derivation_path.deep_view(),
        }
    }
}

/// What drives a key lookup forward.
#[derive(Debug, PartialEq, Eq)]
pub enum KeyEvent {
    /// A caller asks for the key.
    Requested,
    /// The signing subsystem answered a derivation with this key.
    Derived(PublicKeyMaterial),
    /// The platform refused the derivation.
    Rejected { code: RejectionCode, message: String },
}

/// Mathematical content of [`KeyEvent`].
pub enum KeyEventView {
    Requested,
    Derived(PublicKeyView),
    Rejected { code: RejectionCode, message: Seq<char> },
}

impl View for KeyEvent {
    type V = KeyEventView;

    open spec fn view(&self) -> KeyEventView {
        match self {
            KeyEvent::Requested => KeyEventView::Requested,
            KeyEvent::Derived(key) => KeyEventView::Derived(key@),
            KeyEvent::Rejected { code, message } => KeyEventView::Rejected {
                code: *code,
                message: message@,
            },
        }
    }
}

/// What the caller of a key lookup has to do next.
#[derive(Debug, PartialEq, Eq)]
pub enum KeyAction {
    /// The lookup is over: here is the key.
    Ready(PublicKeyMaterial),
    /// Send the request to the signing subsystem and come back with its
    /// answer, as [`KeyEvent::Derived`] or [`KeyEvent::Rejected`].
    Derive(PublicKeyRequest),
    /// Give up the whole operation with this message. Without a key no
    /// transaction can be built, so there is nothing to recover.
    Trap(String),
}

/// Mathematical content of [`KeyAction`].
pub enum KeyActionView {
    Ready(PublicKeyView),
    Derive(PublicKeyRequestView),
    Trap(Seq<char>),
}

impl View for KeyAction {
    type V = KeyActionView;

    open spec fn view(&self) -> KeyActionView {
        match self {
            KeyAction::Ready(key) => KeyActionView::Ready(key@),
            KeyAction::Derive(request) => KeyActionView::Derive(request@),
            KeyAction::Trap(message) => KeyActionView::Trap(message@),
        }
    }
}

/// The message with which a refused derivation ends the operation.
pub open spec fn derivation_failure_message(code: RejectionCode, message: Seq<char>) -> Seq<char> {
    "failed to get canister's public key: "@ + message + " (error code = "@ + code.text() + ")"@
}

/// The request for the key of `scheme`: the configured key name and an empty
/// derivation path.
pub open spec fn public_key_request(
    state: StateView,
    scheme: SignatureScheme,
) -> PublicKeyRequestView {
    PublicKeyRequestView {
        scheme,
        key_name: state.key_name(scheme),
        derivation_path: Seq::empty(),
    }
}

/// One step of a key lookup: the state after the step and what to do next.
///
/// A request is answered from the cache where it is filled and starts a
/// derivation where it is not. A derived key is cached and handed out. A
/// refusal leaves the state as it was.
pub open spec fn key_step(
    state: StateView,
    scheme: SignatureScheme,
    event: KeyEventView,
) -> (StateView, KeyActionView) {
    match event {
        KeyEventView::Requested => match state.cached_key(scheme) {
            Some(key) => (state, KeyActionView::Ready(key)),
            None => (state, KeyActionView::Derive(public_key_request(state, scheme))),
        },
        KeyEventView::Derived(key) => (
            state.with_cached_key(scheme, key),
            KeyActionView::Ready(key),
        ),
        KeyEventView::Rejected { code, message } => (
            state,
            KeyActionView::Trap(derivation_failure_message(code, message)),
        ),
    }
}

/// Advances the lookup of the public key of `scheme` by one step.
///
/// The derivation itself is the caller's to perform, outside any access to
/// the state. Nothing here waits for another lookup that is under way: two
/// lookups that both find the cache empty both derive.
pub fn get_public_key(state: &mut State, scheme: SignatureScheme, event: KeyEvent) -> (action:
    KeyAction)
    ensures
        (final(state)@, action@) == key_step(old(state)@, scheme, event@),
{
    match event {
        KeyEvent::Requested => {
            match state.cached_public_key(scheme) {
                Some(key) => KeyAction::Ready(key),
                None => {
                    let key_name = match scheme {
                        SignatureScheme::Ecdsa => state.ecdsa_key_name.as_str(),
                        SignatureScheme::Ed25519 => state.ed25519_key_name.as_str(),
                    };
                    let derivation_path: Vec<Vec<u8>> = Vec::new();
                    assert(derivation_path.deep_view() =~= Seq::<Seq<u8>>::empty());
                    KeyAction::Derive(
                        PublicKeyRequest {
                            scheme,
                            key_name: String::from_str(key_name),
                            derivation_path,
                        },
                    )
                },
            }
        },
        KeyEvent::Derived(key) => {
            let cached = key.clone();
            match scheme {
                SignatureScheme::Ecdsa => {
                    state.ecdsa_public_key = Some(cached);
                },
                SignatureScheme::Ed25519 => {
                    state.ed25519_public_key = Some(cached);
                },
            }
            KeyAction::Ready(key)
        },
        KeyEvent::Rejected { code, message } => {
            let mut text = String::from_str("failed to get canister's public key: ");
            text.append(message.as_str());
            text.append(" (error code = ");
            text.append(code.as_str());
            text.append(")");
            KeyAction::Trap(text)
        },
    }
}

/// Advances the lookup of the canister's ECDSA public key by one step.
///
/// The lookup reads and fills the ECDSA cache and asks for the configured
/// ECDSA key. It never touches the Ed25519 cache.
pub fn lazy_call_ecdsa_public_key(state: &mut State, event: KeyEvent) -> (action: KeyAction)
    ensures
        (final(state)@, action@) == key_step(old(state)@, SignatureScheme::Ecdsa, event@),
{
    get_public_key(state, SignatureScheme::Ecdsa, event)
}

/// One complete lookup, from the request to the key: the state afterwards,
/// the key handed out, and how many derivations were performed. `answer` is
/// what the signing subsystem returns if it is asked.
pub open spec fn lookup(state: StateView, scheme: SignatureScheme, answer: PublicKeyView) -> (
    StateView,
    PublicKeyView,
    nat,
) {
    let (asked, first) = key_step(state, scheme, KeyEventView::Requested);
    match first {
        KeyActionView::Ready(key) => (asked, key, 0),
        _ => (key_step(asked, scheme, KeyEventView::Derived(answer)).0, answer, 1),
    }
}

/// The state after a sequence of steps, each for its own scheme.
pub open spec fn run(state: StateView, steps: Seq<(SignatureScheme, KeyEventView)>) -> StateView
    decreases steps.len(),
{
    if steps.len() == 0 {
        state
    } else {
        run(key_step(state, steps[0].0, steps[0].1).0, steps.drop_first())
    }
}

/// The state after a sequence of complete lookups, one after the other. Each
/// comes with the key that the signing subsystem returns if that lookup asks.
pub open spec fn run_lookups(
    state: StateView,
    lookups: Seq<(SignatureScheme, PublicKeyView)>,
) -> StateView
    decreases lookups.len(),
{
    if lookups.len() == 0 {
        state
    } else {
        run_lookups(lookup(state, lookups[0].0, lookups[0].1).0, lookups.drop_first())
    }
}

/// The key that an event delivers, if it delivers one.
pub open spec fn delivered_key(event: KeyEventView) -> Option<PublicKeyView> {
    match event {
        KeyEventView::Derived(key) => Some(key),
        _ => None,
    }
}

/// Whether every key that `steps` deliver is the one that `subsystem` assigns
/// to the scheme of the step.
pub open spec fn answers_come_from(
    steps: Seq<(SignatureScheme, KeyEventView)>,
    subsystem: spec_fn(SignatureScheme) -> PublicKeyView,
) -> bool {
    forall|i: int|
        0 <= i < steps.len() && delivered_key((#[trigger] steps[i]).1) is Some ==> delivered_key(
            steps[i].1,
        ) == Some(subsystem(steps[i].0))
}

/// Whether each cache of `state` is empty or holds the key that `subsystem`
/// assigns to its scheme.
pub open spec fn caches_come_from(
    state: StateView,
    subsystem: spec_fn(SignatureScheme) -> PublicKeyView,
) -> bool {
    forall|scheme: SignatureScheme|
        (#[trigger] state.cached_key(scheme)) is Some ==> state.cached_key(scheme) == Some(
            subsystem(scheme),
        )
}

/// Initialization with an input that chooses nothing gives the defaults: the
/// Sepolia and Devnet networks, the local development keys and finalized
/// commitment. It is the state that exists before any initialization.
pub proof fn lemma_empty_init_gives_defaults()
    ensures
        StateView::from_init_arg(InitArg::empty()) == StateView::initial(),
        StateView::initial().ethereum_network == EthereumNetwork::Sepolia,
        StateView::initial().ecdsa_key_name == EcdsaKeyName::TestKeyLocalDevelopment,
        StateView::initial().solana_network == SolanaNetwork::Devnet,
        StateView::initial().solana_commitment_level == CommitmentLevel::Finalized,
        StateView::initial().ed25519_key_name == Ed25519KeyName::LocalDevelopment,
        StateView::initial().sol_rpc_canister_id is None,
{
}

/// Initialization with an input that chooses everything gives exactly those
/// choices, and the key caches are empty.
pub proof fn lemma_complete_init_is_reproduced(init_arg: InitArg)
    requires
        init_arg.is_complete(),
    ensures
        ({
            let state = StateView::from_init_arg(init_arg);
            &&& Some(state.ethereum_network) == init_arg.ethereum_network
            &&& Some(state.ecdsa_key_name) == init_arg.ecdsa_key_name
            &&& state.sol_rpc_canister_id == init_arg.sol_rpc_canister_id
            &&& Some(state.solana_network) == init_arg.solana_network
            &&& Some(state.solana_commitment_level) == init_arg.solana_commitment_level
            &&& Some(state.ed25519_key_name) == init_arg.ed25519_key_name
            &&& state.ecdsa_public_key is None
            &&& state.ed25519_public_key is None
        }),
{
}

/// No step of a lookup changes what initialization chose, and a step for one
/// scheme leaves the cache of the other scheme alone.
pub proof fn lemma_step_keeps_configuration(
    state: StateView,
    scheme: SignatureScheme,
    event: KeyEventView,
    other: SignatureScheme,
)
    ensures
        key_step(state, scheme, event).0.configuration() == state.configuration(),
        other != scheme ==> key_step(state, scheme, event).0.cached_key(other) == state.cached_key(
            other,
        ),
{
}

/// Two lookups one after the other derive at most once, and they hand out
/// the same key: the second lookup finds the key in the cache, asks nothing
/// of the signing subsystem and leaves the state as the first one left it.
pub proof fn lemma_second_lookup_is_cached(
    state: StateView,
    scheme: SignatureScheme,
    first_answer: PublicKeyView,
    second_answer: PublicKeyView,
)
    ensures
        ({
            let (after_first, first_key, first_derivations) = lookup(state, scheme, first_answer);
            let (after_second, second_key, second_derivations) = lookup(
                after_first,
                scheme,
                second_answer,
            );
            &&& first_derivations + second_derivations <= 1
            &&& second_derivations == 0
            &&& second_key == first_key
            &&& after_second == after_first
            &&& after_first.cached_key(scheme) == Some(first_key)
        }),
{
}

/// Once a key is cached for a scheme, no sequence of lookups replaces it,
/// whatever the signing subsystem would answer: a lookup that finds the key
/// does not derive, and a lookup for the other scheme writes to the other
/// cache. The configuration stays as well.
pub proof fn lemma_lookups_keep_cached_key(
    state: StateView,
    lookups: Seq<(SignatureScheme, PublicKeyView)>,
    scheme: SignatureScheme,
    key: PublicKeyView,
)
    requires
        state.cached_key(scheme) == Some(key),
    ensures
        run_lookups(state, lookups).cached_key(scheme) == Some(key),
        run_lookups(state, lookups).configuration() == state.configuration(),
    decreases lookups.len(),
{
    if lookups.len() > 0 {
        let next = lookup(state, lookups[0].0, lookups[0].1).0;
        assert(next.cached_key(scheme) == Some(key));
        assert(next.configuration() == state.configuration());
        lemma_lookups_keep_cached_key(next, lookups.drop_first(), scheme, key);
    }
}

/// No sequence of steps changes what initialization chose.
pub proof fn lemma_run_keeps_configuration(
    state: StateView,
    steps: Seq<(SignatureScheme, KeyEventView)>,
)
    ensures
        run(state, steps).configuration() == state.configuration(),
    decreases steps.len(),
{
    if steps.len() > 0 {
        let next = key_step(state, steps[0].0, steps[0].1).0;
        lemma_step_keeps_configuration(state, steps[0].0, steps[0].1, steps[0].0);
        lemma_run_keeps_configuration(next, steps.drop_first());
    }
}

/// A cached key stays under steps in any order, as long as every key that
/// arrives for `scheme` is the cached one: after such steps the cache of
/// `scheme` still holds it.
pub proof fn lemma_cached_key_never_changes(
    state: StateView,
    steps: Seq<(SignatureScheme, KeyEventView)>,
    scheme: SignatureScheme,
    key: PublicKeyView,
)
    requires
        state.cached_key(scheme) == Some(key),
        forall|i: int|
            0 <= i < steps.len() && (#[trigger] steps[i]).0 == scheme && delivered_key(
                steps[i].1,
            ) is Some ==> delivered_key(steps[i].1) == Some(key),
    ensures
        run(state, steps).cached_key(scheme) == Some(key),
    decreases steps.len(),
{
    if steps.len() > 0 {
        let next = key_step(state, steps[0].0, steps[0].1).0;
        let rest = steps.drop_first();
        assert(next.cached_key(scheme) == Some(key));
        assert forall|i: int| 0 <= i < rest.len() implies #[trigger] rest[i] == steps[i + 1] by {}
        lemma_cached_key_never_changes(next, rest, scheme, key);
    }
}

/// With a signing subsystem that always returns the same key for the same
/// scheme, every cache holds at all times either nothing or that key, in
/// whatever order lookups interleave; and the configuration never changes.
pub proof fn lemma_caches_follow_subsystem(
    state: StateView,
    steps: Seq<(SignatureScheme, KeyEventView)>,
    subsystem: spec_fn(SignatureScheme) -> PublicKeyView,
)
    requires
        caches_come_from(state, subsystem),
        answers_come_from(steps, subsystem),
    ensures
        caches_come_from(run(state, steps), subsystem),
        run(state, steps).configuration() == state.configuration(),
        forall|scheme: SignatureScheme|
            (#[trigger] state.cached_key(scheme)) is Some ==> run(state, steps).cached_key(scheme)
                == state.cached_key(scheme),
    decreases steps.len(),
{
    if steps.len() > 0 {
        let next = key_step(state, steps[0].0, steps[0].1).0;
        let rest = steps.drop_first();
        assert forall|i: int| 0 <= i < rest.len() implies #[trigger] rest[i] == steps[i + 1] by {}
        assert forall|scheme: SignatureScheme|
            (#[trigger] next.cached_key(scheme)) is Some implies next.cached_key(scheme) == Some(
            subsystem(scheme),
        ) by {
            assert(state.cached_key(scheme) is Some ==> state.cached_key(scheme) == Some(
                subsystem(scheme),
            ));
            assert(delivered_key(steps[0].1) is Some ==> delivered_key(steps[0].1) == Some(
                subsystem(steps[0].0),
            ));
        }
        lemma_caches_follow_subsystem(next, rest, subsystem);
        assert forall|scheme: SignatureScheme|
            (#[trigger] state.cached_key(scheme)) is Some implies next.cached_key(scheme)
            == state.cached_key(scheme) by {}
    }
}

} // verus!

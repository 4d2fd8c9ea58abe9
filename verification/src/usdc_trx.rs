//! The swap executor: one single-hop, exact-input swap through a fixed router
//! contract, signed with the canister's own key.
//!
//! A swap is two steps. [`swap`] decides what to send; the caller signs and
//! submits it; [`swap_outcome`] turns what came back into the answer.

use crate::config::InitArg;
use crate::evm::{
    hex_digit_value, parse_address, prefixed_hex, strip_hex_prefix, Address, TxHash, U160, U24,
    U256,
};
use crate::state::{init_state, StateView as ConfigView};
use ic_cdk_timers::TimerId;
use vstd::prelude::*;
use vstd::string::StringExecFns;

verus! {

/// `ic_cdk_timers::TimerId`, the handle of a scheduled task. The library
/// stores it and never looks inside.
#[verifier::external_type_specification]
#[verifier::external_body]
pub struct ExTimerId(TimerId);

/// The token that the demonstration swap buys.
pub const USDC_ADDRESS: &'static str = "0xf08a50178dfcde18524640ea6618a1f965821715";

/// The chain's native asset, written as an address.
pub const NATIVE_ASSET_ADDRESS: &'static str = "0x0000000000000000000000000000000000000000";

/// The proxy through which every call to the chain goes.
pub const RPC_PROXY_URL: &'static str =
    "https://ic-alloy-evm-rpc-proxy.kristofer-977.workers.dev/eth-sepolia";

/// The bytes of the swap router contract's address.
pub const UNISWAP_V3_SWAP_ROUTER: [u8; 20] = [
    0x3b, 0xfa, 0x47, 0x69, 0xfb, 0x09, 0xee, 0xfc, 0x5a, 0x80, 0xd6, 0xe8, 0x7c, 0x3b, 0x9c, 0x65,
    0x0f, 0x7a, 0xe4, 0x8e,
];

/// The bytes of the address of the contract that knows the pools.
pub const UNISWAP_V3_FACTORY: [u8; 20] = [
    0x02, 0x27, 0x62, 0x8f, 0x3f, 0x02, 0x3b, 0xb0, 0xb9, 0x80, 0xb6, 0x7d, 0x52, 0x85, 0x71, 0xc9,
    0x5c, 0x6d, 0xac, 0x1c,
];

/// Fee tier of the demonstration swap, in hundredths of a basis point.
pub const DEMO_FEE: u16 = 3000;

/// Amount that the demonstration swap sells, in the smallest unit.
pub const DEMO_AMOUNT_IN: u64 = 1_000_000_000_000_000;

/// The settings as they travel to and from the outside.
#[derive(Clone, Debug, PartialEq, Eq)]
pub struct CanisterSettingsDto {
    pub owner: String,
    pub token_in_address: String,
    pub token_in_name: String,
    pub token_out_address: String,
    pub token_out_name: String,
    pub fee: u64,
    pub amount_in: u64,
    pub slippage: u64,
    pub interval: u64,
}

/// The key with which the canister signs, and the address that belongs to it.
#[derive(Debug, PartialEq, Eq)]
pub struct Signer {
    pub key_name: String,
    pub derivation_path: Vec<Vec<u8>>,
    pub public_key: Vec<u8>,
    pub address: Address,
    pub chain_id: Option<u64>,
}

/// Mathematical content of [`Signer`].
pub struct SignerView {
    pub key_name: Seq<char>,
    pub derivation_path: Seq<Seq<u8>>,
    pub public_key: Seq<u8>,
    pub address: Seq<u8>,
    pub chain_id: Option<u64>,
}

impl View for Signer {
    type V = SignerView;

    open spec fn view(&self) -> SignerView {
        SignerView {
            key_name: self.key_name@,
            derivation_path: self.derivation_path.deep_view(),
            public_key: self.public_key@,
            address: self.address@,
            chain_id: self.chain_id,
        }
    }
}

/// A copy of a derivation path.
fn clone_path(path: &Vec<Vec<u8>>) -> (copy: Vec<Vec<u8>>)
    ensures
        copy.deep_view() == path.deep_view(),
{
    let mut copy: Vec<Vec<u8>> = Vec::new();
    let mut i: usize = 0;
    while i < path.len()
        invariant
            i <= path.len(),
            copy@.len() == i,
            forall|j: int| 0 <= j < i ==> copy@[j]@ == path@[j]@,
        decreases path.len() - i,
    {
        let segment = path[i].clone();
        assert(segment@ =~= path@[i as int]@);
        copy.push(segment);
        i = i + 1;
    }
    assert(copy.deep_view() =~= path.deep_view()) by {
        assert forall|j: int| 0 <= j < path@.len() implies #[trigger] copy.deep_view()[j]
            == path.deep_view()[j] by {
            assert(copy@[j].deep_view() =~= path@[j].deep_view());
        }
    }
    copy
}

impl Clone for Signer {
    fn clone(&self) -> (copy: Self)
        ensures
            copy@ == self@,
    {
        let public_key = self.public_key.clone();
        assert(public_key@ =~= self.public_key@);
        Signer {
            key_name: self.key_name.clone(),
            derivation_path: clone_path(&self.derivation_path),
            public_key,
            address: self.address,
            chain_id: self.chain_id,
        }
    }
}


/// A header to send with every request to an RPC endpoint.
#[derive(Clone, Debug, PartialEq, Eq)]
pub struct HttpHeader {
    pub name: String,
    pub value: String,
}

/// An RPC endpoint given by its address.
#[derive(Clone, Debug, PartialEq, Eq)]
pub struct RpcApi {
    pub url: String,
    pub headers: Option<Vec<HttpHeader>>,
}

/// The endpoint through which calls reach the chain.
#[derive(Clone, Debug, PartialEq, Eq)]
pub enum RpcService {
    Custom(RpcApi),
}

/// Mathematical content of [`RpcService`]: the address of the endpoint and
/// the headers as pairs of name and value.
pub struct RpcServiceView {
    pub url: Seq<char>,
    pub headers: Option<Seq<(Seq<char>, Seq<char>)>>,
}

impl View for RpcService {
    type V = RpcServiceView;

    open spec fn view(&self) -> RpcServiceView {
        match self {
            RpcService::Custom(api) => RpcServiceView {
                url: api.url@,
                headers: match api.headers {
                    Some(headers) => Some(
                        Seq::new(headers@.len(), |i: int| (headers@[i].name@, headers@[i].value@)),
                    ),
                    None => None,
                },
            },
        }
    }
}

/// The arguments of the router's single-hop, exact-input swap.
#[derive(Clone, Copy, Debug, PartialEq, Eq)]
pub struct ExactInputSingleParams {
    pub token_in: Address,
    pub token_out: Address,
    pub fee: U24,
    pub recipient: Address,
    pub amount_in: U256,
    pub amount_out_minimum: U256,
    pub sqrt_price_limit_x96: U160,
}

/// Mathematical content of [`ExactInputSingleParams`].
pub struct SwapParamsView {
    pub token_in: Seq<u8>,
    pub token_out: Seq<u8>,
    pub fee: nat,
    pub recipient: Seq<u8>,
    pub amount_in: nat,
    pub amount_out_minimum: nat,
    pub sqrt_price_limit_x96: nat,
}

impl View for ExactInputSingleParams {
    type V = SwapParamsView;

    open spec fn view(&self) -> SwapParamsView {
        SwapParamsView {
            token_in: self.token_in@,
            token_out: self.token_out@,
            fee: self.fee@,
            recipient: self.recipient@,
            amount_in: self.amount_in@,
            amount_out_minimum: self.amount_out_minimum@,
            sqrt_price_limit_x96: self.sqrt_price_limit_x96@,
        }
    }
}

/// A swap that is ready to be signed and submitted.
#[derive(Clone, Debug, PartialEq, Eq)]
pub struct SwapCall {
    /// Who signs the transaction.
    pub signer: Signer,
    /// Where the transaction is submitted.
    pub rpc_service: RpcService,
    /// The contract that is called.
    pub router: Address,
    /// The arguments of the call.
    pub params: ExactInputSingleParams,
}

/// Mathematical content of [`SwapCall`].
pub struct SwapCallView {
    pub signer: SignerView,
    pub rpc_service: RpcServiceView,
    pub router: Seq<u8>,
    pub params: SwapParamsView,
}

impl View for SwapCall {
    type V = SwapCallView;

    open spec fn view(&self) -> SwapCallView {
        SwapCallView {
            signer: self.signer@,
            rpc_service: self.rpc_service@,
            router: self.router@,
            params: self.params@,
        }
    }
}

/// The settings of the swap executor and what it set up at run time.
#[derive(Clone, Debug, PartialEq, Eq)]
pub struct State {
    owner: String,
    token_in_address: Address,
    token_in_name: String,
    token_out_address: Address,
    token_out_name: String,
    fee: U24,
    amount_in: U256,
    slippage: U256,
    interval: u64,
    timer_id: Option<TimerId>,
    signer: Option<Signer>,
    canister_eth_address: Option<Address>,
    uniswap_v3_pool_address: Option<Address>,
}

/// Mathematical content of [`State`].
pub struct StateView {
    pub owner: Seq<char>,
    pub token_in_address: Seq<u8>,
    pub token_in_name: Seq<char>,
    pub token_out_address: Seq<u8>,
    pub token_out_name: Seq<char>,
    pub fee: nat,
    pub amount_in: nat,
    pub slippage: nat,
    pub interval: u64,
    pub timer_id: Option<TimerId>,
    pub signer: Option<SignerView>,
    pub canister_eth_address: Option<Seq<u8>>,
    pub uniswap_v3_pool_address: Option<Seq<u8>>,
}

/// View of an optional address.
pub open spec fn address_view(address: Option<Address>) -> Option<Seq<u8>> {
    match address {
        Some(address) => Some(address@),
        None => None,
    }
}

impl View for State {
    type V = StateView;

    closed spec fn view(&self) -> StateView {
        StateView {
            owner: self.owner@,
            token_in_address: self.token_in_address@,
            token_in_name: self.token_in_name@,
            token_out_address: self.token_out_address@,
            token_out_name: self.token_out_name@,
            fee: self.fee@,
            amount_in: self.amount_in@,
            slippage: self.slippage@,
            interval: self.interval,
            timer_id: self.timer_id,
            signer: match self.signer {
                Some(signer) => Some(signer@),
                None => None,
            },
            canister_eth_address: address_view(self.canister_eth_address),
            uniswap_v3_pool_address: address_view(self.uniswap_v3_pool_address),
        }
    }
}

impl StateView {
    /// The state before anything is set: empty texts, zero numbers and zero
    /// addresses, no timer, no signer, no pool.
    pub open spec fn initial() -> StateView {
        StateView {
            owner: Seq::empty(),
            token_in_address: Address::zero(),
            token_in_name: Seq::empty(),
            token_out_address: Address::zero(),
            token_out_name: Seq::empty(),
            fee: 0,
            amount_in: 0,
            slippage: 0,
            interval: 0,
            timer_id: None,
            signer: None,
            canister_eth_address: None,
            uniswap_v3_pool_address: None,
        }
    }

    /// Whether a signer and its address are set.
    pub open spec fn has_signer(self) -> bool {
        self.signer is Some && self.canister_eth_address is Some
    }

    /// Whether a signer is set and the address kept beside it is the
    /// signer's own.
    pub open spec fn signer_established(self) -> bool {
        self.has_signer() && self.canister_eth_address == Some(self.signer->0.address)
    }
}

impl Default for State {
    fn default() -> (state: State)
        ensures
            state@ == StateView::initial(),
    {
        State {
            owner: String::new(),
            token_in_address: Address::default(),
            token_in_name: String::new(),
            token_out_address: Address::default(),
            token_out_name: String::new(),
            fee: U24::default(),
            amount_in: U256::default(),
            slippage: U256::default(),
            interval: 0,
            timer_id: None,
            signer: None,
            canister_eth_address: None,
            uniswap_v3_pool_address: None,
        }
    }
}

impl State {
    /// Stores the signer and the address under which the canister acts. The
    /// two are stored as given, also where they do not belong together.
    pub fn establish_signer(&mut self, signer: Signer, address: Address)
        ensures
            final(self)@ == (StateView {
                signer: Some(signer@),
                canister_eth_address: Some(address@),
                ..old(self)@
            }),
    {
        self.signer = Some(signer);
        self.canister_eth_address = Some(address);
    }

    /// Whether a signer and its address are set.
    pub fn has_signer(&self) -> (present: bool)
        ensures
            present == self@.has_signer(),
    {
        self.signer.is_some() && self.canister_eth_address.is_some()
    }

    /// Whether a signer is set and the address kept beside it is the
    /// signer's own.
    pub fn signer_established(&self) -> (established: bool)
        ensures
            established == self@.signer_established(),
    {
        match (&self.signer, &self.canister_eth_address) {
            (Some(signer), Some(address)) => signer.address.same_as(address),
            _ => false,
        }
    }
}

/// The endpoint of the RPC proxy.
pub open spec fn rpc_proxy() -> RpcServiceView {
    RpcServiceView { url: RPC_PROXY_URL@, headers: None }
}

/// The endpoint through which every call to the chain goes. It is the same
/// for every call.
pub fn get_rpc_service() -> (service: RpcService)
    ensures
        service@ == rpc_proxy(),
{
    RpcService::Custom(RpcApi { url: String::from_str(RPC_PROXY_URL), headers: None })
}

/// The signer and the address under which the canister acts.
///
/// Both must have been set: to ask for the signer before is a mistake of the
/// program, not a condition to recover from.
pub fn get_signer(state: &State) -> (pair: (Signer, Address))
    requires
        state@.has_signer(),
    ensures
        Some(pair.0@) == state@.signer,
        Some(pair.1@) == state@.canister_eth_address,
{
    (state.signer.as_ref().unwrap().clone(), state.canister_eth_address.unwrap())
}

/// The swap call for the given tokens, fee tier and amounts.
///
/// The canister signs, and what the swap buys goes to the canister's own
/// address. The call sets no price limit: only `amount_out_minimum` bounds
/// the price.
pub open spec fn swap_call(
    state: StateView,
    token_in: Seq<u8>,
    token_out: Seq<u8>,
    fee: nat,
    amount_in: nat,
    amount_out_minimum: nat,
) -> SwapCallView {
    SwapCallView {
        signer: state.signer->0,
        rpc_service: rpc_proxy(),
        router: UNISWAP_V3_SWAP_ROUTER@,
        params: SwapParamsView {
            token_in,
            token_out,
            fee,
            recipient: state.signer->0.address,
            amount_in,
            amount_out_minimum,
            sqrt_price_limit_x96: 0,
        },
    }
}

/// Prepares a single-hop swap of exactly `amount_in` of `token_in` for at
/// least `amount_out_minimum` of `token_out`.
///
/// The signer must be established, with its own address beside it. Where the
/// stored address is not the signer's, the configuration is wrong, and the
/// swap is not prepared with either of the two.
pub fn swap(
    state: &State,
    token_in: Address,
    token_out: Address,
    fee: U24,
    amount_in: U256,
    amount_out_minimum: U256,
) -> (call: SwapCall)
    requires
        state@.signer_established(),
    ensures
        call@ == swap_call(
            state@,
            token_in@,
            token_out@,
            fee@,
            amount_in@,
            amount_out_minimum@,
        ),
        call@.params.recipient == call@.signer.address,
{
    let (signer, recipient) = get_signer(state);
    let rpc_service = get_rpc_service();
    let params = ExactInputSingleParams {
        token_in,
        token_out,
        fee,
        recipient,
        amount_in,
        amount_out_minimum,
        sqrt_price_limit_x96: U160::zero(),
    };
    SwapCall { signer, rpc_service, router: Address { bytes: UNISWAP_V3_SWAP_ROUTER }, params }
}

/// Turns the outcome of a submission into the answer for the caller: the
/// printed hash of the transaction that was included, or the message of the
/// failure.
///
/// A failure is handed on as it came. It is the caller's to retry: nothing
/// was changed, since neither step of a swap can change any state.
pub fn swap_outcome(outcome: Result<TxHash, String>) -> (answer: Result<String, String>)
    ensures
        match outcome {
            Ok(hash) => answer matches Ok(text) && text@ == prefixed_hex(hash@),
            Err(message) => answer == Err::<String, String>(message),
        },
{
    match outcome {
        Ok(hash) => Ok(hash.to_hex()),
        Err(message) => Err(message),
    }
}

/// The bytes of the token that the demonstration swap buys.
pub open spec fn usdc_address() -> Seq<u8> {
    seq![
        0xf0u8, 0x8a, 0x50, 0x17, 0x8d, 0xfc, 0xde, 0x18, 0x52, 0x46, 0x40, 0xea, 0x66, 0x18, 0xa1,
        0xf9, 0x65, 0x82, 0x17, 0x15,
    ]
}

/// The two addresses of the demonstration swap are well spelled.
pub proof fn lemma_demo_addresses_parse()
    ensures
        parse_address(NATIVE_ASSET_ADDRESS@) == Some(Address::zero()),
        parse_address(USDC_ADDRESS@) == Some(usdc_address()),
{
    reveal_strlit("0x0000000000000000000000000000000000000000");
    reveal_strlit("0xf08a50178dfcde18524640ea6618a1f965821715");
    let native = strip_hex_prefix(NATIVE_ASSET_ADDRESS@);
    assert(native.len() == 40);
    assert forall|i: int| 0 <= i < 40 implies hex_digit_value(#[trigger] native[i]) == Some(
        0nat,
    ) by {
        assert(native[i] == NATIVE_ASSET_ADDRESS@[i + 2]);
    }
    assert(parse_address(NATIVE_ASSET_ADDRESS@)->0 =~= Address::zero());
    let usdc = strip_hex_prefix(USDC_ADDRESS@);
    assert(usdc.len() == 40);
    assert(usdc =~= seq![
        'f', '0', '8', 'a', '5', '0', '1', '7', '8', 'd', 'f', 'c', 'd', 'e', '1', '8', '5', '2',
        '4', '6', '4', '0', 'e', 'a', '6', '6', '1', '8', 'a', '1', 'f', '9', '6', '5', '8', '2',
        '1', '7', '1', '5',
    ]);
    assert forall|i: int| 0 <= i < 40 implies hex_digit_value(#[trigger] usdc[i]) is Some by {}
    assert(parse_address(USDC_ADDRESS@)->0 =~= usdc_address());
}

/// Prepares the demonstration swap: a fixed small amount of the native asset
/// for the demonstration token at the 0.3 % fee tier, whatever it yields.
pub fn swap_eth_to_usdc(state: &State) -> (prepared: Result<SwapCall, String>)
    requires
        state@.signer_established(),
    ensures
        prepared matches Ok(call) && call@ == swap_call(
            state@,
            Address::zero(),
            usdc_address(),
            DEMO_FEE as nat,
            DEMO_AMOUNT_IN as nat,
            0,
        ),
{
    proof {
        lemma_demo_addresses_parse();
    }
    let fee = U24::from_u16(DEMO_FEE);
    let amount_in = U256::from_u64(DEMO_AMOUNT_IN);
    let amount_out_minimum = U256::from_u64(0);
    let token_in = match Address::from_hex(NATIVE_ASSET_ADDRESS) {
        Ok(address) => address,
        Err(message) => {
            return Err(message);
        },
    };
    let token_out = match Address::from_hex(USDC_ADDRESS) {
        Ok(address) => address,
        Err(message) => {
            return Err(message);
        },
    };
    Ok(swap(state, token_in, token_out, fee, amount_in, amount_out_minimum))
}

/// Sets the state up from the installer's choices, if there are any. Without
/// any the state stays as it is.
pub fn init(state: &mut crate::state::State, maybe_init: Option<InitArg>)
    ensures
        final(state)@ == match maybe_init {
            Some(init_arg) => ConfigView::from_init_arg(init_arg),
            None => old(state)@,
        },
{
    if let Some(init_arg) = maybe_init {
        init_state(state, init_arg)
    }
}

} // verus!

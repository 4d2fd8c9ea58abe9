//! Encoding of the token program's transfer instruction.

use vstd::arithmetic::power::pow;
use vstd::prelude::*;

verus! {

/// Instruction tag that the token program reads as "transfer".
pub const TRANSFER_TAG: u8 = 3;

/// A 32-byte account or program identifier.
#[derive(Clone, Copy, Debug, PartialEq, Eq)]
pub struct Pubkey {
    pub bytes: [u8; 32],
}

impl Pubkey {
    pub fn new_from_array(bytes: [u8; 32]) -> (key: Pubkey)
        ensures
            key.bytes == bytes,
    {
        Pubkey { bytes }
    }

    pub fn to_bytes(&self) -> (bytes: [u8; 32])
        ensures
            bytes == self.bytes,
    {
        self.bytes
    }
}

/// One account reference of an instruction, with the access it asks for.
#[derive(Clone, Copy, Debug, PartialEq, Eq)]
pub struct AccountMeta {
    pub pubkey: Pubkey,
    /// The transaction must carry a signature of `pubkey`.
    pub is_signer: bool,
    /// The program may change the account.
    pub is_writable: bool,
}

/// An instruction as the chain receives it.
#[derive(Clone, Debug, PartialEq, Eq)]
pub struct Instruction {
    pub program_id: Pubkey,
    pub accounts: Vec<AccountMeta>,
    pub data: Vec<u8>,
}

/// Mathematical content of an [`Instruction`].
pub struct InstructionView {
    pub program_id: Pubkey,
    pub accounts: Seq<AccountMeta>,
    pub data: Seq<u8>,
}

impl View for Instruction {
    type V = InstructionView;

    open spec fn view(&self) -> InstructionView {
        InstructionView { program_id: self.program_id, accounts: self.accounts@, data: self.data@ }
    }
}

/// The first `len` bytes of `value`, least significant byte first.
pub open spec fn le_bytes_of(value: nat, len: nat) -> Seq<u8>
    decreases len,
{
    if len == 0 {
        Seq::empty()
    } else {
        seq![(value % 256) as u8] + le_bytes_of(value / 256, (len - 1) as nat)
    }
}

/// The number that `bytes` spell, least significant byte first.
pub open spec fn le_value(bytes: Seq<u8>) -> nat
    decreases bytes.len(),
{
    if bytes.len() == 0 {
        0
    } else {
        bytes[0] as nat + 256 * le_value(bytes.drop_first())
    }
}

/// The eight little-endian bytes of an amount.
pub open spec fn le_bytes(amount: u64) -> Seq<u8> {
    le_bytes_of(amount as nat, 8)
}

/// Payload of a transfer: the tag, then the amount, nothing else.
pub open spec fn transfer_data(amount: u64) -> Seq<u8> {
    seq![TRANSFER_TAG] + le_bytes(amount)
}

/// A reference to an account that the program may change and that does not sign.
pub open spec fn writable(pubkey: Pubkey) -> AccountMeta {
    AccountMeta { pubkey, is_signer: false, is_writable: true }
}

/// A reference to an account that signs and that the program may only read.
pub open spec fn readonly_signer(pubkey: Pubkey) -> AccountMeta {
    AccountMeta { pubkey, is_signer: true, is_writable: false }
}

/// Account list of a transfer, in the order the token program expects.
pub open spec fn transfer_accounts(
    source: Pubkey,
    destination: Pubkey,
    authority: Pubkey,
) -> Seq<AccountMeta> {
    seq![writable(source), writable(destination), readonly_signer(authority)]
}

/// The transfer instruction for the given accounts, amount and program.
pub open spec fn transfer_instruction(
    source: Pubkey,
    destination: Pubkey,
    authority: Pubkey,
    amount: u64,
    program_id: Pubkey,
) -> InstructionView {
    InstructionView {
        program_id,
        accounts: transfer_accounts(source, destination, authority),
        data: transfer_data(amount),
    }
}

/// `le_bytes_of(value, len)` has `len` bytes.
pub proof fn lemma_le_bytes_len(value: nat, len: nat)
    ensures
        le_bytes_of(value, len).len() == len,
    decreases len,
{
    if len > 0 {
        lemma_le_bytes_len(value / 256, (len - 1) as nat);
    }
}

/// Reading back what `le_bytes_of` wrote gives the value again, as long as the
/// value fits in `len` bytes.
pub proof fn lemma_le_value_of_le_bytes(value: nat, len: nat)
    requires
        value < pow(256, len),
    ensures
        le_value(le_bytes_of(value, len)) == value,
    decreases len,
{
    reveal(pow);
    if len > 0 {
        let tail = le_bytes_of(value / 256, (len - 1) as nat);
        let bytes = le_bytes_of(value, len);
        assert(value / 256 < pow(256, (len - 1) as nat)) by (nonlinear_arith)
            requires
                value < 256 * pow(256, (len - 1) as nat),
        ;
        lemma_le_value_of_le_bytes(value / 256, (len - 1) as nat);
        assert(bytes.drop_first() =~= tail);
        assert(bytes[0] == (value % 256) as u8);
    }
}

/// The amount's encoding has eight bytes and spells the amount.
pub proof fn lemma_le_bytes_round_trip(amount: u64)
    ensures
        le_bytes(amount).len() == 8,
        le_value(le_bytes(amount)) == amount,
{
    lemma_le_bytes_len(amount as nat, 8);
    assert(pow(256, 8) == 0x1_0000_0000_0000_0000) by {
        reveal_with_fuel(pow, 9);
    }
    lemma_le_value_of_le_bytes(amount as nat, 8);
}

/// The payload is the tag followed by the eight bytes of the amount, with no
/// padding and no length prefix.
pub proof fn lemma_transfer_data_layout(amount: u64)
    ensures
        transfer_data(amount).len() == 9,
        transfer_data(amount)[0] == TRANSFER_TAG,
        transfer_data(amount).subrange(1, 9) == le_bytes(amount),
        le_value(transfer_data(amount).subrange(1, 9)) == amount,
{
    lemma_le_bytes_round_trip(amount);
    assert(transfer_data(amount).subrange(1, 9) =~= le_bytes(amount));
}

/// Different amounts never share a payload.
pub proof fn lemma_transfer_data_injective(first: u64, second: u64)
    requires
        transfer_data(first) == transfer_data(second),
    ensures
        first == second,
{
    lemma_transfer_data_layout(first);
    lemma_transfer_data_layout(second);
}

/// The encoding depends on its five inputs and on nothing else: two
/// instructions built from the same inputs agree in every byte.
pub proof fn lemma_transfer_encoding_deterministic(
    first: InstructionView,
    second: InstructionView,
    source: Pubkey,
    destination: Pubkey,
    authority: Pubkey,
    amount: u64,
    program_id: Pubkey,
)
    requires
        first == transfer_instruction(source, destination, authority, amount, program_id),
        second == transfer_instruction(source, destination, authority, amount, program_id),
    ensures
        first == second,
        first.data == transfer_data(amount),
{
}

/// A transfer names exactly three accounts, in the order source, destination,
/// authority. Only the authority signs; only source and destination are
/// writable.
pub proof fn lemma_transfer_account_order(
    source: Pubkey,
    destination: Pubkey,
    authority: Pubkey,
    amount: u64,
    program_id: Pubkey,
)
    ensures
        ({
            let accounts = transfer_instruction(
                source,
                destination,
                authority,
                amount,
                program_id,
            ).accounts;
            &&& accounts.len() == 3
            &&& accounts[0].pubkey == source
            &&& accounts[1].pubkey == destination
            &&& accounts[2].pubkey == authority
            &&& forall|i: int| 0 <= i < 3 ==> (#[trigger] accounts[i].is_signer <==> i == 2)
            &&& forall|i: int| 0 <= i < 3 ==> (#[trigger] accounts[i].is_writable <==> i < 2)
        }),
{
}

/// `solana_instruction::AccountMeta::new`: the reference it builds names the
/// given key, carries the given signer flag and is writable.
#[verifier::external_body]
fn account_meta_new(pubkey: &Pubkey, is_signer: bool) -> (meta: AccountMeta)
    ensures
        meta == (AccountMeta { pubkey: *pubkey, is_signer, is_writable: true }),
{
    let key = solana_pubkey::Pubkey::new_from_array(pubkey.bytes);
    let meta = solana_instruction::AccountMeta::new(key, is_signer);
    AccountMeta {
        pubkey: Pubkey { bytes: meta.pubkey.to_bytes() },
        is_signer: meta.is_signer,
        is_writable: meta.is_writable,
    }
}

/// `solana_instruction::AccountMeta::new_readonly`: the reference it builds
/// names the given key, carries the given signer flag and is not writable.
#[verifier::external_body]
fn account_meta_new_readonly(pubkey: &Pubkey, is_signer: bool) -> (meta: AccountMeta)
    ensures
        meta == (AccountMeta { pubkey: *pubkey, is_signer, is_writable: false }),
{
    let key = solana_pubkey::Pubkey::new_from_array(pubkey.bytes);
    let meta = solana_instruction::AccountMeta::new_readonly(key, is_signer);
    AccountMeta {
        pubkey: Pubkey { bytes: meta.pubkey.to_bytes() },
        is_signer: meta.is_signer,
        is_writable: meta.is_writable,
    }
}

/// Appends the eight little-endian bytes of `amount` to `data`.
fn push_le_bytes(data: &mut Vec<u8>, amount: u64)
    ensures
        final(data)@ == old(data)@ + le_bytes(amount),
{
    let mut rest: u64 = amount;
    let mut written: usize = 0;
    while written < 8
        invariant
            written <= 8,
            data@ + le_bytes_of(rest as nat, (8 - written) as nat) == old(data)@ + le_bytes(amount),
        decreases 8 - written,
    {
        let ghost before = data@;
        data.push((rest % 256) as u8);
        proof {
            let head = seq![(rest % 256) as u8];
            let tail = le_bytes_of((rest / 256) as nat, (8 - written - 1) as nat);
            assert(le_bytes_of(rest as nat, (8 - written) as nat) == head + tail);
            assert(data@ + tail == before + (head + tail));
        }
        rest = rest / 256;
        written = written + 1;
    }
}

/// Builds the token program's transfer instruction.
///
/// The encoder is total: it checks neither the amount nor the accounts, which
/// is the receiving chain's business.
pub fn transfer_instruction_with_program_id(
    source_address: &Pubkey,
    destination_address: &Pubkey,
    authority_address: &Pubkey,
    amount: u64,
    token_program_id: &Pubkey,
) -> (instruction: Instruction)
    ensures
        instruction@ == transfer_instruction(
            *source_address,
            *destination_address,
            *authority_address,
            amount,
            *token_program_id,
        ),
{
    let mut accounts: Vec<AccountMeta> = Vec::new();
    accounts.push(account_meta_new(source_address, false));
    accounts.push(account_meta_new(destination_address, false));
    accounts.push(account_meta_new_readonly(authority_address, true));
    let mut data: Vec<u8> = Vec::new();
    data.push(TRANSFER_TAG);
    push_le_bytes(&mut data, amount);
    proof {
        assert(accounts@ =~= transfer_accounts(
            *source_address,
            *destination_address,
            *authority_address,
        ));
        assert(data@ =~= transfer_data(amount));
    }
    Instruction { program_id: *token_program_id, accounts, data }
}

} // verus!

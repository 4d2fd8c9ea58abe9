use chain_agent::spl::{
    transfer_instruction_with_program_id, AccountMeta, Instruction, Pubkey, TRANSFER_TAG,
};

fn key(fill: u8) -> Pubkey {
    Pubkey::new_from_array([fill; 32])
}

#[test]
fn payload_is_tag_then_little_endian_amount() {
    let ix = transfer_instruction_with_program_id(
        &key(1),
        &key(2),
        &key(3),
        0x0102030405060708,
        &key(9),
    );
    assert_eq!(ix.data, vec![0x03, 0x08, 0x07, 0x06, 0x05, 0x04, 0x03, 0x02, 0x01]);
}

#[test]
fn end_to_end_transfer_of_one_million() {
    let source = key(0x11);
    let destination = key(0x22);
    let authority = key(0x33);
    let program = key(0x44);
    let ix = transfer_instruction_with_program_id(
        &source,
        &destination,
        &authority,
        1_000_000,
        &program,
    );
    let expected = Instruction {
        program_id: program,
        accounts: vec![
            AccountMeta { pubkey: source, is_signer: false, is_writable: true },
            AccountMeta { pubkey: destination, is_signer: false, is_writable: true },
            AccountMeta { pubkey: authority, is_signer: true, is_writable: false },
        ],
        data: vec![0x03, 0x40, 0x42, 0x0f, 0x00, 0x00, 0x00, 0x00, 0x00],
    };
    assert_eq!(ix, expected);
}

#[test]
fn encoding_is_deterministic() {
    let first = transfer_instruction_with_program_id(&key(1), &key(2), &key(3), 77, &key(4));
    let second = transfer_instruction_with_program_id(&key(1), &key(2), &key(3), 77, &key(4));
    assert_eq!(first, second);
    assert_eq!(first.data, second.data);
}

#[test]
fn accounts_are_source_destination_authority() {
    let ix = transfer_instruction_with_program_id(&key(5), &key(6), &key(7), 1, &key(8));
    assert_eq!(ix.accounts.len(), 3);
    assert_eq!(ix.accounts[0].pubkey, key(5));
    assert_eq!(ix.accounts[1].pubkey, key(6));
    assert_eq!(ix.accounts[2].pubkey, key(7));
    let signers: Vec<bool> = ix.accounts.iter().map(|a| a.is_signer).collect();
    let writable: Vec<bool> = ix.accounts.iter().map(|a| a.is_writable).collect();
    assert_eq!(signers, vec![false, false, true]);
    assert_eq!(writable, vec![true, true, false]);
}

#[test]
fn same_account_in_every_role_keeps_the_flags_of_each_role() {
    let ix = transfer_instruction_with_program_id(&key(5), &key(5), &key(5), 1, &key(5));
    assert_eq!(ix.program_id, key(5));
    assert_eq!(
        ix.accounts,
        vec![
            AccountMeta { pubkey: key(5), is_signer: false, is_writable: true },
            AccountMeta { pubkey: key(5), is_signer: false, is_writable: true },
            AccountMeta { pubkey: key(5), is_signer: true, is_writable: false },
        ]
    );
}

#[test]
fn zero_amount_is_eight_zero_bytes() {
    let ix = transfer_instruction_with_program_id(&key(1), &key(2), &key(3), 0, &key(4));
    assert_eq!(ix.data, vec![TRANSFER_TAG, 0, 0, 0, 0, 0, 0, 0, 0]);
}

#[test]
fn largest_amount_is_eight_full_bytes() {
    let ix = transfer_instruction_with_program_id(&key(1), &key(2), &key(3), u64::MAX, &key(4));
    assert_eq!(ix.data, vec![3, 0xff, 0xff, 0xff, 0xff, 0xff, 0xff, 0xff, 0xff]);
}

#[test]
fn payload_agrees_with_the_standard_byte_order() {
    for amount in [1u64, 255, 256, 65_535, 1 << 32, 0xdead_beef_cafe_f00d, u64::MAX - 1] {
        let ix = transfer_instruction_with_program_id(&key(1), &key(2), &key(3), amount, &key(4));
        assert_eq!(ix.data.len(), 9);
        assert_eq!(ix.data[0], 3);
        assert_eq!(&ix.data[1..], &amount.to_le_bytes()[..]);
    }
}

#[test]
fn different_amounts_give_different_payloads() {
    let one = transfer_instruction_with_program_id(&key(1), &key(2), &key(3), 1, &key(4));
    let other = transfer_instruction_with_program_id(&key(1), &key(2), &key(3), 1 << 56, &key(4));
    assert_ne!(one.data, other.data);
    assert_eq!(one.accounts, other.accounts);
}

#[test]
fn account_references_agree_with_the_chain_library() {
    let source = [0xa1u8; 32];
    let authority = [0xc3u8; 32];
    let ix = transfer_instruction_with_program_id(
        &Pubkey::new_from_array(source),
        &key(2),
        &Pubkey::new_from_array(authority),
        5,
        &key(4),
    );
    let writable =
        solana_instruction::AccountMeta::new(solana_pubkey::Pubkey::new_from_array(source), false);
    let readonly = solana_instruction::AccountMeta::new_readonly(
        solana_pubkey::Pubkey::new_from_array(authority),
        true,
    );
    assert_eq!(ix.accounts[0].pubkey.to_bytes(), writable.pubkey.to_bytes());
    assert_eq!(ix.accounts[0].is_signer, writable.is_signer);
    assert_eq!(ix.accounts[0].is_writable, writable.is_writable);
    assert_eq!(ix.accounts[2].pubkey.to_bytes(), readonly.pubkey.to_bytes());
    assert_eq!(ix.accounts[2].is_signer, readonly.is_signer);
    assert_eq!(ix.accounts[2].is_writable, readonly.is_writable);
}

#[test]
fn pubkey_keeps_its_bytes() {
    let mut bytes = [0u8; 32];
    for (i, b) in bytes.iter_mut().enumerate() {
        *b = i as u8;
    }
    let pubkey = Pubkey::new_from_array(bytes);
    assert_eq!(pubkey.to_bytes(), bytes);
    assert_eq!(pubkey.bytes, bytes);
}

use solana_program::pubkey::Pubkey;
use spl_token_wrap::instruction::{AccountMeta, TokenWrapRequest};
use spl_token_wrap::state::WrapError;
use spl_token_wrap::{create_mint, unwrap, wrap, Address, TokenWrapInstruction};

fn unique() -> Address {
    Address { bytes: Pubkey::new_unique().to_bytes() }
}

fn token_id() -> Address {
    Address { bytes: spl_token::id().to_bytes() }
}

fn token_2022_id() -> Address {
    Address { bytes: spl_token_2022::id().to_bytes() }
}

fn meta_eq(m: &AccountMeta, pubkey: Address, is_signer: bool, is_writable: bool) -> bool {
    m.pubkey == pubkey && m.is_signer == is_signer && m.is_writable == is_writable
}

#[test]
fn test_create_mint() {
    let program_id = unique();
    let funding_account = unique();
    let wrapped_mint = unique();
    let wrapped_backpointer = unique();
    let unwrapped_mint = unique();

    let instruction = create_mint(
        &program_id,
        &funding_account,
        &wrapped_mint,
        &wrapped_backpointer,
        &unwrapped_mint,
        false,
    );
    assert_eq!(instruction.program_id, program_id);
    assert_eq!(instruction.accounts.len(), 5);
    assert!(meta_eq(&instruction.accounts[0], funding_account, true, true));
    assert!(meta_eq(&instruction.accounts[1], wrapped_mint, false, true));
    assert!(meta_eq(&instruction.accounts[2], wrapped_backpointer, false, true));
    assert!(meta_eq(&instruction.accounts[3], unwrapped_mint, false, false));
    assert!(meta_eq(&instruction.accounts[4], token_id(), false, false));
    assert_eq!(instruction.data, vec![0, 0]);
}

#[test]
fn create_mint_account_list_is_fixed() {
    let (p, f, w, b, u) = (unique(), unique(), unique(), unique(), unique());
    let idempotent = create_mint(&p, &f, &w, &b, &u, true);
    let plain = create_mint(&p, &f, &w, &b, &u, false);
    assert_eq!(idempotent.accounts.len(), 5);
    for i in 0..5 {
        let (x, y) = (&idempotent.accounts[i], &plain.accounts[i]);
        assert!(meta_eq(x, y.pubkey, y.is_signer, y.is_writable));
    }
    assert_eq!(idempotent.data, vec![0, 1]);
    assert_eq!(plain.data, vec![0, 0]);
}

#[test]
fn token_program_ids_are_the_declared_ones() {
    let token: [u8; 32] = [
        6, 221, 246, 225, 215, 101, 161, 147, 217, 203, 225, 70, 206, 235, 121, 172, 28, 180,
        133, 237, 95, 91, 55, 145, 58, 140, 245, 133, 126, 255, 0, 169,
    ];
    let token_2022: [u8; 32] = [
        6, 221, 246, 225, 238, 117, 143, 222, 24, 66, 93, 188, 228, 108, 205, 218, 182, 26, 252,
        77, 131, 185, 13, 39, 254, 189, 249, 40, 216, 161, 139, 252,
    ];
    let created = create_mint(&unique(), &unique(), &unique(), &unique(), &unique(), true);
    assert_eq!(created.accounts[4].pubkey.bytes, token);
    let wrapped = wrap(&unique(), &unique(), &unique(), &unique(), &unique(), 1, None);
    assert_eq!(wrapped.accounts[4].pubkey.bytes, token);
    assert_eq!(wrapped.accounts[5].pubkey.bytes, token_2022);
}

#[test]
fn test_wrap() {
    let program_id = unique();
    let unwrapped_token = unique();
    let unwrapped_mint = unique();
    let wrapped_mint = unique();
    let wrapped_token = unique();
    let amount: u64 = 100;
    let multisig_signers = vec![unique(), unique()];

    let instruction = wrap(
        &program_id,
        &unwrapped_token,
        &unwrapped_mint,
        &wrapped_mint,
        &wrapped_token,
        amount,
        Some(multisig_signers.clone()),
    );
    assert_eq!(instruction.program_id, program_id);
    assert_eq!(instruction.accounts.len(), 8);
    assert!(meta_eq(&instruction.accounts[0], unwrapped_token, false, true));
    assert!(meta_eq(&instruction.accounts[1], wrapped_token, false, true));
    assert!(meta_eq(&instruction.accounts[2], unwrapped_mint, false, false));
    assert!(meta_eq(&instruction.accounts[3], wrapped_mint, false, false));
    assert!(meta_eq(&instruction.accounts[4], token_id(), false, false));
    assert!(meta_eq(&instruction.accounts[5], token_2022_id(), false, false));
    assert!(meta_eq(&instruction.accounts[6], multisig_signers[0], true, false));
    assert!(meta_eq(&instruction.accounts[7], multisig_signers[1], true, false));
    assert_eq!(instruction.data, vec![1, 100, 0, 0, 0, 0, 0, 0, 0]);
}

#[test]
fn test_unwrap() {
    let program_id = unique();
    let wrapped_token = unique();
    let wrapped_mint = unique();
    let unwrapped_token = unique();
    let unwrapped_mint = unique();
    let amount: u64 = 100;
    let multisig_signers = vec![unique(), unique()];

    let instruction = unwrap(
        &program_id,
        &wrapped_token,
        &wrapped_mint,
        &unwrapped_token,
        &unwrapped_mint,
        amount,
        Some(multisig_signers.clone()),
    );
    assert_eq!(instruction.program_id, program_id);
    assert_eq!(instruction.accounts.len(), 8);
    assert!(meta_eq(&instruction.accounts[0], wrapped_token, false, true));
    assert!(meta_eq(&instruction.accounts[1], unwrapped_token, false, true));
    assert!(meta_eq(&instruction.accounts[2], wrapped_mint, false, false));
    assert!(meta_eq(&instruction.accounts[3], unwrapped_mint, false, false));
    assert!(meta_eq(&instruction.accounts[4], token_id(), false, false));
    assert!(meta_eq(&instruction.accounts[5], token_2022_id(), false, false));
    assert!(meta_eq(&instruction.accounts[6], multisig_signers[0], true, false));
    assert!(meta_eq(&instruction.accounts[7], multisig_signers[1], true, false));
    assert_eq!(instruction.data, vec![2, 100, 0, 0, 0, 0, 0, 0, 0]);
}

#[test]
fn wrap_without_multisig_has_six_accounts() {
    let instruction = wrap(&unique(), &unique(), &unique(), &unique(), &unique(), 7, None);
    assert_eq!(instruction.accounts.len(), 6);
}

#[test]
fn pack_amount_is_little_endian() {
    let bytes = TokenWrapRequest::Wrap { amount: 0x0102_0304_0506_0708 }.pack();
    assert_eq!(bytes, vec![1, 8, 7, 6, 5, 4, 3, 2, 1]);
    let bytes = TokenWrapRequest::Unwrap { amount: u64::MAX }.pack();
    assert_eq!(bytes, vec![2, 255, 255, 255, 255, 255, 255, 255, 255]);
}

#[test]
fn unpack_round_trips() {
    for request in [
        TokenWrapRequest::CreateMint { idempotent: true },
        TokenWrapRequest::CreateMint { idempotent: false },
        TokenWrapRequest::Wrap { amount: 1_000_000 },
        TokenWrapRequest::Unwrap { amount: 0 },
    ] {
        let bytes = request.pack();
        assert_eq!(TokenWrapRequest::unpack(&bytes), Ok(request));
    }
}

#[test]
fn unpack_rejects_malformed_data() {
    let bad: Vec<Vec<u8>> = vec![
        vec![],
        vec![3],
        vec![0],
        vec![0, 2],
        vec![0, 1, 0],
        vec![1, 0, 0, 0, 0, 0, 0, 0],
        vec![2, 0, 0, 0, 0, 0, 0, 0, 0, 0],
        vec![9, 0, 0, 0, 0, 0, 0, 0, 0],
    ];
    for data in bad {
        assert_eq!(TokenWrapRequest::unpack(&data), Err(WrapError::InvalidInstructionData));
    }
}

#[test]
fn instruction_discriminants() {
    assert_eq!(TokenWrapInstruction::CreateMint.to_byte(), 0);
    assert_eq!(TokenWrapInstruction::Wrap.to_byte(), 1);
    assert_eq!(TokenWrapInstruction::Unwrap.to_byte(), 2);
    assert_eq!(TokenWrapInstruction::try_from_byte(2), Ok(TokenWrapInstruction::Unwrap));
    assert_eq!(TokenWrapInstruction::try_from_byte(3), Err(WrapError::InvalidInstructionData));
    assert_eq!(
        TokenWrapRequest::Unwrap { amount: 4 }.instruction(),
        TokenWrapInstruction::Unwrap
    );
}
